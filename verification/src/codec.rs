//! The string codec: a host string is represented inside the engine as a
//! right-folded chain of binary cons nodes holding character codes, ended by
//! one nullary nil node.  Encoding builds that chain; decoding walks it back
//! into a string.

use vstd::prelude::*;

use crate::term::{CallTerm, CallTermV, call_term_view};
use vstd::string::StrSliceExecFns;
use vstd::string::StringExecFns;

verus! {

/// Name of the cons constructor of the string encoding.
pub open spec fn cons_name() -> Seq<char> {
    "StrCons"@
}

/// Name of the nil constructor of the string encoding.
pub open spec fn nil_name() -> Seq<char> {
    "StrNil"@
}

/// True of the code points that a Rust `char` can hold: at most 0x10FFFF and
/// not a surrogate.
pub open spec fn is_scalar_value(m: u32) -> bool {
    m <= 0xD7FF || (0xE000 <= m && m <= 0x10FFFF)
}

/// Relies on `char::from_u32` of std: the conversion succeeds exactly on
/// Unicode scalar values, and then returns the character with that code.
pub assume_specification[ char::from_u32 ](i: u32) -> (r: Option<char>)
    ensures
        r == (if is_scalar_value(i) {
            Some(i as char)
        } else {
            None::<char>
        }),
;

/// The character that a numeric leaf decodes to.  The engine's numbers are
/// wider than `u32`, so the value is first truncated to 32 bits; a code
/// outside the valid character range decodes to a fixed placeholder rather
/// than failing — a deliberate leniency.
pub open spec fn char_of_code(n: u64) -> char {
    let m = (n % 0x1_0000_0000) as u32;
    if is_scalar_value(m) {
        m as char
    } else {
        '?'
    }
}

/// Executable form of `char_of_code`.
pub fn code_to_char(n: u64) -> (c: char)
    ensures
        c == char_of_code(n),
{
    let m: u32 = (n % 0x1_0000_0000) as u32;
    match char::from_u32(m) {
        Some(c) => c,
        None => '?',
    }
}

/// A character's own code decodes back to that character.
pub proof fn lemma_char_code_round(c: char)
    ensures
        char_of_code(c as u64) == c,
{
    let n = c as u64;
    assert(n == c as int);
    assert((n % 0x1_0000_0000) == n);
    let m = (n % 0x1_0000_0000) as u32;
    assert(m == c as int);
    assert(is_scalar_value(m));
    assert(m as char == c);
}

/// The encoding of a character sequence: a nil node for the empty sequence,
/// else a cons node holding the first character's code and the encoding of
/// the rest.  The first character therefore sits nearest the root.
pub open spec fn str_term_v(s: Seq<char>) -> CallTermV
    decreases s.len(),
{
    if s.len() == 0 {
        CallTermV::Ctr0 { name: nil_name() }
    } else {
        CallTermV::Ctr2 {
            name: cons_name(),
            fst: Box::new(CallTermV::Num { numb: s[0] as u64 }),
            snd: Box::new(str_term_v(s.subrange(1, s.len() as int))),
        }
    }
}

/// Encodes a string as the cons-chain of its character codes.
pub fn build_str_term(txt: &str) -> (t: CallTerm)
    ensures
        t@ == str_term_v(txt@),
{
    let n = txt.unicode_len();
    let mut t = CallTerm::Ctr0 { name: String::from_str("StrNil") };
    proof {
        assert(txt@.subrange(n as int, n as int) =~= Seq::<char>::empty());
        assert(t@ == str_term_v(txt@.subrange(n as int, n as int)));
    }
    let mut i = n;
    while i > 0
        invariant
            i <= n,
            n == txt@.len(),
            t@ == str_term_v(txt@.subrange(i as int, n as int)),
        decreases i,
    {
        i = i - 1;
        let ghost prev = t@;
        let c = txt.get_char(i);
        t = CallTerm::Ctr2 {
            name: String::from_str("StrCons"),
            fst: Box::new(CallTerm::Num { numb: c as u64 }),
            snd: Box::new(t),
        };
        proof {
            let s = txt@.subrange(i as int, n as int);
            assert(s.len() > 0);
            assert(s[0] == c);
            assert(s.subrange(1, s.len() as int) =~= txt@.subrange(i + 1, n as int));
            assert(call_term_view(CallTerm::Num { numb: c as u64 }) == CallTermV::Num { numb: c as u64 });
            assert(t@ == CallTermV::Ctr2 {
                name: cons_name(),
                fst: Box::new(CallTermV::Num { numb: c as u64 }),
                snd: Box::new(prev),
            });
            assert(str_term_v(s) == CallTermV::Ctr2 {
                name: cons_name(),
                fst: Box::new(CallTermV::Num { numb: s[0] as u64 }),
                snd: Box::new(str_term_v(s.subrange(1, s.len() as int))),
            });
        }
    }
    proof {
        assert(txt@.subrange(0, n as int) =~= txt@);
    }
    t
}

/// What a term decodes to, if it is a well-formed encoded string: the
/// characters of its cons chain, or nothing if any node has the wrong shape.
pub open spec fn dec_v(t: CallTermV) -> Option<Seq<char>>
    decreases t,
{
    match t {
        CallTermV::Ctr0 { name } => if name == nil_name() {
            Some(Seq::<char>::empty())
        } else {
            None
        },
        CallTermV::Ctr2 { name, fst, snd } => if name == cons_name() {
            match *fst {
                CallTermV::Num { numb } => match dec_v(*snd) {
                    Some(rest) => Some(seq![char_of_code(numb)] + rest),
                    None => None,
                },
                _ => None,
            }
        } else {
            None
        },
        _ => None,
    }
}

/// A decoded prefix followed by the decoding of a remaining term.
pub open spec fn dec_after(acc: Seq<char>, rest: Option<Seq<char>>) -> Option<Seq<char>> {
    match rest {
        Some(r) => Some(acc + r),
        None => None,
    }
}

/// Relies on `String::from_iter` of std (through `collect`): the string holds
/// exactly the given characters, in order.
#[verifier::external_body]
pub(crate) fn chars_to_string(v: &Vec<char>) -> (r: String)
    ensures
        r@ == v@,
{
    v.iter().collect()
}

/// Decodes a term back into a string, or reports that its shape is not a
/// well-formed encoded string.
pub fn decode_str_term(t: &CallTerm) -> (r: Option<String>)
    ensures
        match r {
            Some(s) => dec_v(t@) == Some(s@),
            None => dec_v(t@) is None,
        },
{
    let nil = String::from_str("StrNil");
    let cons = String::from_str("StrCons");
    let mut cur: &CallTerm = t;
    let mut out: Vec<char> = Vec::new();
    proof {
        match dec_v(t@) {
            Some(r) => {
                assert(Seq::<char>::empty() + r =~= r);
            },
            None => {},
        }
    }
    loop
        invariant
            nil@ == nil_name(),
            cons@ == cons_name(),
            dec_after(out@, dec_v(cur@)) == dec_v(t@),
        decreases *cur,
    {
        match cur {
            CallTerm::Ctr0 { name } => {
                proof {
                    assert(cur@ == CallTermV::Ctr0 { name: name@ });
                }
                if *name == nil {
                    proof {
                        assert(dec_v(cur@) == Some(Seq::<char>::empty()));
                        assert(out@ + Seq::<char>::empty() =~= out@);
                    }
                    return Some(chars_to_string(&out));
                } else {
                    proof {
                        assert(dec_v(cur@) is None);
                    }
                    return None;
                }
            },
            CallTerm::Ctr2 { name, fst, snd } => {
                proof {
                    assert(cur@ == CallTermV::Ctr2 {
                        name: name@,
                        fst: Box::new(call_term_view(**fst)),
                        snd: Box::new(call_term_view(**snd)),
                    });
                }
                if *name == cons {
                    match &**fst {
                        CallTerm::Num { numb } => {
                            let ghost cur_v = cur@;
                            let ghost old_out = out@;
                            let c = code_to_char(*numb);
                            out.push(c);
                            proof {
                                assert(call_term_view(**fst) == CallTermV::Num { numb: *numb });
                                match dec_v(call_term_view(**snd)) {
                                    Some(r) => {
                                        assert(dec_v(cur_v) == Some(seq![c] + r));
                                        assert(old_out + (seq![c] + r) =~= out@ + r);
                                    },
                                    None => {
                                        assert(dec_v(cur_v) is None);
                                    },
                                }
                            }
                            cur = &**snd;
                        },
                        _ => {
                            proof {
                                assert(!(call_term_view(**fst) matches CallTermV::Num { .. }));
                                assert(dec_v(cur@) is None);
                            }
                            return None;
                        },
                    }
                } else {
                    proof {
                        assert(dec_v(cur@) is None);
                    }
                    return None;
                }
            },
            CallTerm::Ctr1 { name, arg } => {
                proof {
                    assert(cur@ matches CallTermV::Ctr1 { .. });
                    assert(dec_v(cur@) is None);
                }
                return None;
            },
            CallTerm::Num { numb } => {
                proof {
                    assert(cur@ matches CallTermV::Num { .. });
                    assert(dec_v(cur@) is None);
                }
                return None;
            },
        }
    }
}

/// Round trip: decoding the encoding of any character sequence gives back
/// that sequence, unchanged and in order.
pub proof fn lemma_round_trip(s: Seq<char>)
    ensures
        dec_v(str_term_v(s)) == Some(s),
    decreases s.len(),
{
    if s.len() == 0 {
    } else {
        let tail = s.subrange(1, s.len() as int);
        lemma_round_trip(tail);
        lemma_char_code_round(s[0]);
        assert(str_term_v(s) == CallTermV::Ctr2 {
            name: cons_name(),
            fst: Box::new(CallTermV::Num { numb: s[0] as u64 }),
            snd: Box::new(str_term_v(tail)),
        });
        assert(dec_v(str_term_v(s)) == Some(seq![char_of_code(s[0] as u64)] + tail));
        assert(seq![s[0]] + tail =~= s);
    }
}

} // verus!
