//! Reading a reduced graph back into a string: the walk starts at the root,
//! follows cons nodes, collecting one character code from each, and stops at
//! the nil node.  Any other node shape is a malformed result and is reported
//! as a decode error, never as silently wrong text.

use vstd::prelude::*;

use crate::codec::{char_of_code, chars_to_string, code_to_char};
use crate::engine::{ask_arg, ask_lnk, cons_cells_closed, ext_of, graph_of, num_of, tag_of, val_of, CTR_TAG, NUM_TAG};

verus! {

/// The shape of a graph node that cannot be part of a well-formed encoded
/// string, carried inside the decode error.
#[derive(Debug)]
pub enum DecodeError {
    /// The node is not a constructor at all; its tag is carried.
    NotCtr { tag: u64 },
    /// The node is a constructor, but of neither the cons nor the nil
    /// identifier.
    UnknownCtr { id: u64 },
    /// The first child of a cons node is not a numeric leaf; its tag is
    /// carried.
    HeadNotNum { tag: u64 },
    /// The walk read more nodes than the graph memory could hold without the
    /// chain ever reaching nil, so the graph cannot be a well-formed list.
    Unterminated,
}

/// How a list walk treats a node: follow it as a cons cell, stop at nil, or
/// fail on any other shape.
pub enum NodeClass {
    Cons,
    Nil,
    Bad { err: DecodeError },
}

/// Classification of a node link against the cons and nil identifiers.  A
/// constructor carrying neither identifier, or a non-constructor node, is
/// rejected.
pub open spec fn classify_v(term: u64, str_cons: u64, str_nil: u64) -> NodeClass {
    if tag_of(term) != CTR_TAG {
        NodeClass::Bad { err: DecodeError::NotCtr { tag: tag_of(term) } }
    } else if ext_of(term) == str_cons {
        NodeClass::Cons
    } else if ext_of(term) == str_nil {
        NodeClass::Nil
    } else {
        NodeClass::Bad { err: DecodeError::UnknownCtr { id: ext_of(term) } }
    }
}

/// Decides how the walk treats a node.
pub fn classify_node(term: u64, str_cons: u64, str_nil: u64) -> (r: NodeClass)
    ensures
        r == classify_v(term, str_cons, str_nil),
{
    let tag = hvm::runtime::get_tag(term);
    if tag != CTR_TAG {
        NodeClass::Bad { err: DecodeError::NotCtr { tag } }
    } else {
        let id = hvm::runtime::get_ext(term);
        if id == str_cons {
            NodeClass::Cons
        } else if id == str_nil {
            NodeClass::Nil
        } else {
            NodeClass::Bad { err: DecodeError::UnknownCtr { id } }
        }
    }
}

/// The character code of a cons node's first child, if it is a numeric leaf.
pub open spec fn head_code_v(head: u64) -> Result<u64, DecodeError> {
    if tag_of(head) == NUM_TAG {
        Ok(num_of(head))
    } else {
        Err(DecodeError::HeadNotNum { tag: tag_of(head) })
    }
}

/// Reads the character code out of a cons node's first child.
pub fn head_code(head: u64) -> (r: Result<u64, DecodeError>)
    ensures
        r == head_code_v(head),
{
    let tag = hvm::runtime::get_tag(head);
    if tag == NUM_TAG {
        Ok(hvm::runtime::get_num(head))
    } else {
        Err(DecodeError::HeadNotNum { tag })
    }
}

/// Malformed shapes are rejected: a node that is not a constructor, or a
/// constructor carrying neither the cons nor the nil identifier, never
/// classifies as a list cell, and a non-numeric first child never yields a
/// character code.
pub proof fn lemma_malformed_rejected(term: u64, head: u64, str_cons: u64, str_nil: u64)
    ensures
        tag_of(term) != CTR_TAG || (ext_of(term) != str_cons && ext_of(term) != str_nil)
            ==> classify_v(term, str_cons, str_nil) matches NodeClass::Bad { .. },
        tag_of(head) != NUM_TAG ==> head_code_v(head) matches Err(_),
{
}

/// The chain from link `lnk` in graph `g` spells exactly the characters
/// `s`: one cons cell per character, each with an in-bounds numeric head
/// decoding to the matching character and an in-bounds tail, ended by a nil
/// node.
pub open spec fn list_spells(
    g: Map<u64, u64>,
    lnk: u64,
    str_cons: u64,
    str_nil: u64,
    s: Seq<char>,
) -> bool
    decreases s.len(),
{
    if s.len() == 0 {
        classify_v(lnk, str_cons, str_nil) is Nil
    } else {
        let head_loc = val_of(lnk);
        let tail_loc = (val_of(lnk) + 1) as u64;
        &&& classify_v(lnk, str_cons, str_nil) is Cons
        &&& g.dom().contains(head_loc)
        &&& g.dom().contains(tail_loc)
        &&& tag_of(g[head_loc]) == NUM_TAG
        &&& s[0] == char_of_code(num_of(g[head_loc]))
        &&& list_spells(g, g[tail_loc], str_cons, str_nil, s.subrange(1, s.len() as int))
    }
}

/// The graph memory `g` holds, at location `host`, a well-formed chain that
/// spells `s`, and `s` is short enough for the walk's fuel.
pub open spec fn spelled_at(
    g: Map<u64, u64>,
    host: u64,
    str_cons: u64,
    str_nil: u64,
    s: Seq<char>,
    fuel: u64,
) -> bool {
    &&& g.dom().contains(host)
    &&& list_spells(g, g[host], str_cons, str_nil, s)
    &&& s.len() <= fuel
}

/// The walk's intermediate state against a chain spelling `s`: the text so
/// far is a prefix of `s`, the node in hand spells the rest, and the fuel
/// left covers it.
pub open spec fn walk_inv(
    g: Map<u64, u64>,
    host: u64,
    str_cons: u64,
    str_nil: u64,
    s: Seq<char>,
    fuel: u64,
    text: Seq<char>,
    lnk: u64,
    left: u64,
) -> bool {
    &&& text.len() <= s.len()
    &&& text == s.subrange(0, text.len() as int)
    &&& s.len() - text.len() <= left
    &&& list_spells(g, lnk, str_cons, str_nil, s.subrange(text.len() as int, s.len() as int))
}

/// The walked passage from link `from` to link `to`: the cons cells between
/// them spell `s`, each with an in-bounds numeric head and an in-bounds
/// tail slot.
pub open spec fn spells_upto(
    g: Map<u64, u64>,
    from: u64,
    to: u64,
    str_cons: u64,
    str_nil: u64,
    s: Seq<char>,
) -> bool
    decreases s.len(),
{
    if s.len() == 0 {
        from == to
    } else {
        let head_loc = val_of(from);
        let tail_loc = (val_of(from) + 1) as u64;
        &&& classify_v(from, str_cons, str_nil) is Cons
        &&& g.dom().contains(head_loc)
        &&& g.dom().contains(tail_loc)
        &&& tag_of(g[head_loc]) == NUM_TAG
        &&& s[0] == char_of_code(num_of(g[head_loc]))
        &&& spells_upto(g, g[tail_loc], to, str_cons, str_nil, s.subrange(1, s.len() as int))
    }
}

/// A passage extends by one cons cell at its end.
proof fn lemma_upto_snoc(
    g: Map<u64, u64>,
    from: u64,
    to: u64,
    str_cons: u64,
    str_nil: u64,
    s: Seq<char>,
    c: char,
)
    requires
        spells_upto(g, from, to, str_cons, str_nil, s),
        classify_v(to, str_cons, str_nil) is Cons,
        g.dom().contains(val_of(to)),
        g.dom().contains((val_of(to) + 1) as u64),
        tag_of(g[val_of(to)]) == NUM_TAG,
        c == char_of_code(num_of(g[val_of(to)])),
    ensures
        spells_upto(g, from, g[(val_of(to) + 1) as u64], str_cons, str_nil, s.push(c)),
    decreases s.len(),
{
    let s2 = s.push(c);
    if s.len() == 0 {
        assert(s2.subrange(1, s2.len() as int) =~= Seq::<char>::empty());
        assert(s2[0] == c);
        assert(from == to);
        assert(spells_upto(
            g,
            g[(val_of(to) + 1) as u64],
            g[(val_of(to) + 1) as u64],
            str_cons,
            str_nil,
            Seq::<char>::empty(),
        ));
        assert(spells_upto(g, from, g[(val_of(to) + 1) as u64], str_cons, str_nil, s2));
    } else {
        lemma_upto_snoc(
            g,
            g[(val_of(from) + 1) as u64],
            to,
            str_cons,
            str_nil,
            s.subrange(1, s.len() as int),
            c,
        );
        assert(s2.subrange(1, s2.len() as int) =~= s.subrange(1, s.len() as int).push(c));
        assert(s2[0] == s[0]);
        assert(spells_upto(g, from, g[(val_of(to) + 1) as u64], str_cons, str_nil, s2));
    }
}

/// A passage that ends at a nil node is a complete chain.
proof fn lemma_upto_spells(
    g: Map<u64, u64>,
    from: u64,
    to: u64,
    str_cons: u64,
    str_nil: u64,
    s: Seq<char>,
)
    requires
        spells_upto(g, from, to, str_cons, str_nil, s),
        classify_v(to, str_cons, str_nil) is Nil,
    ensures
        list_spells(g, from, str_cons, str_nil, s),
    decreases s.len(),
{
    if s.len() == 0 {
    } else {
        lemma_upto_spells(
            g,
            g[(val_of(from) + 1) as u64],
            to,
            str_cons,
            str_nil,
            s.subrange(1, s.len() as int),
        );
    }
}

/// Walks the reduced graph from `host`, expecting the cons-list shape, and
/// recovers the output text.  The location must lie inside the memory, and
/// every cons cell the memory stores must keep its child slots inside it
/// (`cons_cells_closed`), as engine-built memory does.  The walk is sound
/// and complete: a returned string is always the exact spelling of a
/// well-formed chain at `host`; whenever the memory holds such a chain
/// spelling a string no longer than `fuel`, exactly that string is
/// returned; and every returned error is the exact classification of a
/// node that was read.
///
/// `fuel` bounds the number of cons cells followed; each cell of a
/// well-formed list occupies several cells of graph memory, so passing the
/// heap's cell count never cuts a well-formed list short, and only a cyclic
/// or corrupt graph runs out.
pub fn read_string(
    rt: &hvm::runtime::Worker,
    host: u64,
    str_cons: u64,
    str_nil: u64,
    fuel: u64,
) -> (r: Result<String, DecodeError>)
    requires
        graph_of(*rt).dom().contains(host),
        cons_cells_closed(graph_of(*rt), str_cons),
    ensures
        r matches Ok(text) ==> spelled_at(graph_of(*rt), host, str_cons, str_nil, text@, fuel),
        forall|s: Seq<char>| #[trigger] spelled_at(graph_of(*rt), host, str_cons, str_nil, s, fuel)
            ==> (r matches Ok(text) && text@ == s),
        r matches Err(e) ==> e == DecodeError::Unterminated
            || (exists|term: u64|
            classify_v(term, str_cons, str_nil) == (NodeClass::Bad { err: e }))
            || (exists|head: u64| head_code_v(head) == Err::<u64, DecodeError>(e)),
{
    let mut term = ask_lnk(rt, host);
    let mut out: Vec<char> = Vec::new();
    let mut remaining = fuel;
    proof {
        let g = graph_of(*rt);
        assert(spells_upto(g, g[host], term, str_cons, str_nil, Seq::<char>::empty()));
        assert forall|s: Seq<char>| #[trigger] spelled_at(g, host, str_cons, str_nil, s, fuel)
            implies walk_inv(g, host, str_cons, str_nil, s, fuel, out@, term, remaining) by {
            assert(term == g[host]);
            assert(s.subrange(0, 0) =~= Seq::<char>::empty());
            assert(s.subrange(0, s.len() as int) =~= s);
        };
    }
    loop
        invariant
            graph_of(*rt).dom().contains(host),
            cons_cells_closed(graph_of(*rt), str_cons),
            remaining <= fuel,
            out@.len() == fuel - remaining,
            spells_upto(graph_of(*rt), graph_of(*rt)[host], term, str_cons, str_nil, out@),
            exists|l: u64| #[trigger] graph_of(*rt).dom().contains(l) && graph_of(*rt)[l] == term,
            forall|s: Seq<char>|
                #[trigger] spelled_at(graph_of(*rt), host, str_cons, str_nil, s, fuel)
                    ==> walk_inv(graph_of(*rt), host, str_cons, str_nil, s, fuel, out@, term,
                remaining),
        decreases remaining,
    {
        match classify_node(term, str_cons, str_nil) {
            NodeClass::Nil => {
                proof {
                    let g = graph_of(*rt);
                    lemma_upto_spells(g, g[host], term, str_cons, str_nil, out@);
                    assert forall|s: Seq<char>|
                        #[trigger] spelled_at(g, host, str_cons, str_nil, s, fuel)
                            implies out@ == s by {
                        let suf = s.subrange(out@.len() as int, s.len() as int);
                        assert(list_spells(g, term, str_cons, str_nil, suf));
                        if suf.len() > 0 {
                            assert(classify_v(term, str_cons, str_nil) is Cons);
                        }
                        assert(s.subrange(0, out@.len() as int) =~= s);
                    };
                }
                return Ok(chars_to_string(&out));
            },
            NodeClass::Bad { err } => {
                proof {
                    let g = graph_of(*rt);
                    assert forall|s: Seq<char>|
                        #[trigger] spelled_at(g, host, str_cons, str_nil, s, fuel)
                            implies false by {
                        let suf = s.subrange(out@.len() as int, s.len() as int);
                        assert(list_spells(g, term, str_cons, str_nil, suf));
                        if suf.len() > 0 {
                            assert(classify_v(term, str_cons, str_nil) is Cons);
                        } else {
                            assert(classify_v(term, str_cons, str_nil) is Nil);
                        }
                    };
                }
                return Err(err);
            },
            NodeClass::Cons => {
                if remaining == 0 {
                    proof {
                        let g = graph_of(*rt);
                        assert forall|s: Seq<char>|
                            #[trigger] spelled_at(g, host, str_cons, str_nil, s, fuel)
                                implies false by {
                            let suf = s.subrange(out@.len() as int, s.len() as int);
                            assert(suf.len() == 0);
                            assert(list_spells(g, term, str_cons, str_nil, suf));
                            assert(classify_v(term, str_cons, str_nil) is Nil);
                        };
                    }
                    return Err(DecodeError::Unterminated);
                }
                remaining = remaining - 1;
                proof {
                    let g = graph_of(*rt);
                    let l = choose|l: u64|
                        #[trigger] g.dom().contains(l) && g[l] == term;
                    assert(g.dom().contains(l));
                    assert(tag_of(g[l]) == CTR_TAG && ext_of(g[l]) == str_cons);
                    assert(g.dom().contains(val_of(term)));
                    assert(g.dom().contains((val_of(term) + 1) as u64));
                    assert((val_of(term) + 0) as u64 == val_of(term));
                }
                let head = ask_arg(rt, term, 0);
                let tail = ask_arg(rt, term, 1);
                match head_code(head) {
                    Ok(code) => {
                        let c = code_to_char(code);
                        let ghost out_old = out@;
                        out.push(c);
                        proof {
                            let g = graph_of(*rt);
                            assert(head == g[val_of(term)]);
                            assert(tail == g[(val_of(term) + 1) as u64]);
                            assert(tag_of(head) == NUM_TAG);
                            assert(c == char_of_code(num_of(g[val_of(term)])));
                            lemma_upto_snoc(g, g[host], term, str_cons, str_nil, out_old, c);
                            assert(out@ =~= out_old.push(c));
                            assert(spells_upto(g, g[host], tail, str_cons, str_nil, out@));
                            assert forall|s: Seq<char>|
                                #[trigger] spelled_at(g, host, str_cons, str_nil, s, fuel)
                                    implies walk_inv(g, host, str_cons, str_nil, s, fuel, out@,
                                tail, remaining) by {
                                let suf = s.subrange(out_old.len() as int, s.len() as int);
                                assert(list_spells(g, term, str_cons, str_nil, suf));
                                if suf.len() == 0 {
                                    assert(classify_v(term, str_cons, str_nil) is Nil);
                                }
                                assert(c == suf[0]);
                                assert(suf.subrange(1, suf.len() as int) =~= s.subrange(
                                    out@.len() as int,
                                    s.len() as int,
                                ));
                                assert(out@ =~= s.subrange(0, out@.len() as int));
                            };
                        }
                        term = tail;
                    },
                    Err(err) => {
                        proof {
                            let g = graph_of(*rt);
                            assert forall|s: Seq<char>|
                                #[trigger] spelled_at(g, host, str_cons, str_nil, s, fuel)
                                    implies false by {
                                let suf = s.subrange(out@.len() as int, s.len() as int);
                                assert(list_spells(g, term, str_cons, str_nil, suf));
                                if suf.len() == 0 {
                                    assert(classify_v(term, str_cons, str_nil) is Nil);
                                } else {
                                    assert(head == g[val_of(term)]);
                                    assert(tag_of(head) == NUM_TAG);
                                }
                            };
                        }
                        return Err(err);
                    },
                }
            },
        }
    }
}

} // verus!
