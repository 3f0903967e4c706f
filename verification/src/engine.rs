//! The boundary to the external graph-reduction engine.  Everything the
//! driver needs from the engine — parsing source text, building the rule
//! book, allocating the call term, reducing it to normal form and reading
//! graph nodes back — is reached through the trusted declarations in this
//! module; each contract states no more than the engine's own source shows.
//!
//! The engine treats certain faults (inconsistent constructor arities in the
//! rule book, exhaustion of its graph memory, a diverging reduction) as
//! fatal: those abort or block the process and are outside these contracts,
//! which only describe the values of calls that return.

use vstd::prelude::*;

use crate::term::CallTermV;

verus! {

/// Declares the engine's parsed-file type; opaque here.
#[verifier::external_type_specification]
#[verifier::external_body]
pub struct ExFile(hvm::language::File);

/// Declares the engine's rule-book type; its symbol table is reached through
/// `rulebook_names` below.
#[verifier::external_type_specification]
#[verifier::external_body]
pub struct ExRuleBook(hvm::rulebook::RuleBook);

/// Declares the engine's worker, which owns the graph memory; opaque here.
#[verifier::external_type_specification]
#[verifier::external_body]
pub struct ExWorker(hvm::runtime::Worker);

/// Declares the engine's compiled rewrite function; opaque here.
#[verifier::external_type_specification]
#[verifier::external_body]
pub struct ExFunction(hvm::runtime::Function);

/// Declares the engine's own term type, built only inside the allocation
/// wrapper below; opaque here.
#[verifier::external_type_specification]
#[verifier::external_body]
pub struct ExTerm(hvm::language::Term);

/// The tag of a graph link, as the engine packs it into the link's top bits.
pub open spec fn tag_of(lnk: u64) -> u64 {
    lnk / 0x1000000000000000
}

/// The extension field of a graph link: for a constructor node, its
/// identifier.
pub open spec fn ext_of(lnk: u64) -> u64 {
    (lnk / 0x100000000) & 0xFF_FFFF
}

/// The numeric payload of a graph link: the low 60 bits.
pub open spec fn num_of(lnk: u64) -> u64 {
    lnk & 0xFFF_FFFF_FFFF_FFFF
}

/// The engine's tag for a constructor node.
pub const CTR_TAG: u64 = 0x8;

/// The engine's tag for a numeric leaf.
pub const NUM_TAG: u64 = 0xB;

/// Relies on `hvm::runtime::get_tag`: it divides the link by the tag unit.
pub assume_specification[ hvm::runtime::get_tag ](lnk: u64) -> (r: u64)
    ensures
        r == tag_of(lnk),
;

/// Relies on `hvm::runtime::get_ext`: it divides the link by the extension
/// unit and masks the low 24 bits.
pub assume_specification[ hvm::runtime::get_ext ](lnk: u64) -> (r: u64)
    ensures
        r == ext_of(lnk),
;

/// Relies on `hvm::runtime::get_num`: it masks the low 60 bits of the link.
pub assume_specification[ hvm::runtime::get_num ](lnk: u64) -> (r: u64)
    ensures
        r == num_of(lnk),
;

/// A character that the engine's lexer treats as part of a name: the ASCII
/// alphanumerics, underscore, dot and dollar.
pub open spec fn engine_name_char(c: char) -> bool {
    ('0' <= c && c <= '9') || ('a' <= c && c <= 'z') || ('A' <= c && c <= 'Z') || c == '_' || c
        == '.' || c == '$'
}

/// An ASCII digit.
pub open spec fn engine_digit(c: char) -> bool {
    '0' <= c && c <= '9'
}

/// One left-to-right pass over the text, tracking the engine's lexical
/// modes.  `in_comment` holds from `//` to the end of the line; `str_delim`
/// holds the open string literal's delimiter (the engine's string sugar has
/// no escapes); a quoted character is passed over whole.  Outside those,
/// `in_name` says whether the previous character belonged to a name token,
/// `num_mode` whether that token began with a digit, and `run_len` how many
/// of its characters were read.  A digit-led token must consist of digits
/// alone, at most 19 of them: such a token is a numeral that the engine's
/// number parser reads without fault.
pub open spec fn scan_nums(
    s: Seq<char>,
    i: int,
    in_comment: bool,
    str_delim: Option<char>,
    in_name: bool,
    num_mode: bool,
    run_len: int,
) -> bool
    decreases s.len() - i,
{
    if i < 0 || i >= s.len() {
        true
    } else {
        let c = s[i];
        if in_comment {
            if c == '\n' {
                scan_nums(s, i + 1, false, None, false, false, 0)
            } else {
                scan_nums(s, i + 1, true, None, false, false, 0)
            }
        } else if str_delim is Some {
            if c == str_delim->0 {
                scan_nums(s, i + 1, false, None, false, false, 0)
            } else {
                scan_nums(s, i + 1, false, str_delim, false, false, 0)
            }
        } else if c == '/' && i + 1 < s.len() && s[i + 1] == '/' {
            scan_nums(s, i + 1, true, None, false, false, 0)
        } else if c == '"' || c == '`' {
            scan_nums(s, i + 1, false, Some(c), false, false, 0)
        } else if c == '\'' && i + 2 < s.len() && s[i + 2] == '\'' {
            scan_nums(s, i + 3, false, None, false, false, 0)
        } else if engine_name_char(c) {
            if in_name {
                if num_mode {
                    engine_digit(c) && run_len < 19 && scan_nums(
                        s,
                        i + 1,
                        false,
                        None,
                        true,
                        true,
                        run_len + 1,
                    )
                } else {
                    scan_nums(s, i + 1, false, None, true, false, 0)
                }
            } else {
                if engine_digit(c) {
                    scan_nums(s, i + 1, false, None, true, true, 1)
                } else {
                    scan_nums(s, i + 1, false, None, true, false, 0)
                }
            }
        } else {
            scan_nums(s, i + 1, false, None, false, false, 0)
        }
    }
}

/// Every digit-led name token of the text, outside comments and string
/// literals, is a plain numeral of at most 19 digits, which the engine's
/// number parser reads without fault.
pub open spec fn nums_ok(code: Seq<char>) -> bool {
    scan_nums(code, 0, false, None, false, false, 0)
}

/// Decides `nums_ok` by the same left-to-right pass.
pub fn text_nums_ok(code: &str) -> (b: bool)
    ensures
        b == nums_ok(code@),
{
    let n = code.unicode_len();
    let mut i: usize = 0;
    let mut in_comment = false;
    let mut str_delim: Option<char> = None;
    let mut in_name = false;
    let mut num_mode = false;
    let mut run_len: u64 = 0;
    while i < n
        invariant
            i <= n,
            n == code@.len(),
            run_len <= 19,
            in_comment ==> str_delim is None && !in_name,
            str_delim is Some ==> !in_comment && !in_name,
            !in_name ==> !num_mode && run_len == 0,
            nums_ok(code@) == scan_nums(
                code@,
                i as int,
                in_comment,
                str_delim,
                in_name,
                num_mode,
                run_len as int,
            ),
        decreases n - i,
    {
        let ghost (i0, cm0, sd0, in0, nm0, rl0) = (
            i as int,
            in_comment,
            str_delim,
            in_name,
            num_mode,
            run_len as int,
        );
        let c = code.get_char(i);
        let mut step: usize = 1;
        if in_comment {
            if c == '\n' {
                in_comment = false;
            }
        } else if let Some(d) = str_delim {
            if c == d {
                str_delim = None;
            }
        } else if c == '/' && i + 1 < n && code.get_char(i + 1) == '/' {
            in_comment = true;
            in_name = false;
            num_mode = false;
            run_len = 0;
        } else if c == '"' || c == '`' {
            str_delim = Some(c);
            in_name = false;
            num_mode = false;
            run_len = 0;
        } else if c == '\'' && n - i > 2 && code.get_char(i + 2) == '\'' {
            step = 3;
            in_name = false;
            num_mode = false;
            run_len = 0;
        } else {
            let is_name = ('0' <= c && c <= '9') || ('a' <= c && c <= 'z') || ('A' <= c && c
                <= 'Z') || c == '_' || c == '.' || c == '$';
            let is_dig = '0' <= c && c <= '9';
            if is_name {
                if in_name {
                    if num_mode {
                        if !is_dig || run_len >= 19 {
                            proof {
                                assert(!scan_nums(code@, i0, cm0, sd0, in0, nm0, rl0));
                            }
                            return false;
                        }
                        run_len = run_len + 1;
                    } else {
                        run_len = 0;
                    }
                } else {
                    in_name = true;
                    if is_dig {
                        num_mode = true;
                        run_len = 1;
                    } else {
                        num_mode = false;
                        run_len = 0;
                    }
                }
            } else {
                in_name = false;
                num_mode = false;
                run_len = 0;
            }
        }
        i = i + step;
        proof {
            assert(scan_nums(code@, i0, cm0, sd0, in0, nm0, rl0) == scan_nums(
                code@,
                i as int,
                in_comment,
                str_delim,
                in_name,
                num_mode,
                run_len as int,
            ));
        }
    }
    true
}

/// Whether the engine's parser accepts a source text.  Parsing is a function
/// of the text alone.
pub uninterp spec fn parse_ok(code: Seq<char>) -> bool;

/// The message that the engine's parser reports for a text it rejects:
/// like acceptance, a function of the text alone.
pub uninterp spec fn parse_err_of(code: Seq<char>) -> Seq<char>;

/// Relies on `hvm::language::read_file`: it parses the source text into a
/// rule file, deterministically, and returns its error message otherwise.
/// The engine's number parser aborts on a digit-led token that is not a
/// plain numeral in its native range, so such texts are required away
/// (`nums_ok`).
#[verifier::external_body]
pub(crate) fn parse_code(code: &str) -> (r: Result<hvm::language::File, String>)
    requires
        nums_ok(code@),
    ensures
        r is Ok <==> parse_ok(code@),
        r matches Err(m) ==> m@ == parse_err_of(code@),
{
    hvm::language::read_file(code)
}

/// The symbol table of a rule book: the map from constructor and function
/// names to their dense numeric identifiers.
pub uninterp spec fn rulebook_names(book: hvm::rulebook::RuleBook) -> Map<Seq<char>, u64>;

/// Relies on `hvm::rulebook::gen_rulebook`: it compiles a parsed file into a
/// rule book.  On some parsed files it terminates the process instead of
/// returning: a constructor used with two different arities panics, a
/// global variable used twice panics, and a rule its sanitizer cannot
/// handle prints and exits — so an ill-formed source that parses can kill
/// the process here rather than surface an error.  Those engine-level
/// fatal paths cannot be caught from this crate and are outside this
/// contract, which describes the calls that return.
#[verifier::external_body]
pub(crate) fn make_rulebook(file: &hvm::language::File) -> hvm::rulebook::RuleBook {
    hvm::rulebook::gen_rulebook(file)
}

/// Relies on `HashMap::get` over the rule book's `name_to_id` table: the
/// identifier registered for this name, if any.
#[verifier::external_body]
pub(crate) fn symbol_id(book: &hvm::rulebook::RuleBook, name: &str) -> (r: Option<u64>)
    ensures
        r matches Some(id) ==> rulebook_names(*book).dom().contains(name@)
            && rulebook_names(*book)[name@] == id,
        r is None ==> !rulebook_names(*book).dom().contains(name@),
{
    book.name_to_id.get(name).copied()
}

/// The rewrite counter of a worker: its `cost` field.
pub uninterp spec fn cost_of(w: hvm::runtime::Worker) -> u64;

/// Every link stored in the memory that is a constructor carrying this
/// identifier has both of its child slots inside the memory.  True of
/// engine-built memory when the identifier denotes the binary string
/// constructor: the engine stores such a link only as the head of an
/// argument block it allocated inside the memory.
pub open spec fn cons_cells_closed(g: Map<u64, u64>, str_cons: u64) -> bool {
    forall|l: u64| #[trigger]
        g.dom().contains(l) && tag_of(g[l]) == CTR_TAG && ext_of(g[l]) == str_cons
            ==> g.dom().contains(val_of(g[l])) && g.dom().contains((val_of(g[l]) + 1) as u64)
}

/// Relies on `hvm::runtime::new_worker`: a fresh worker whose graph memory
/// holds the given number of zeroed cells — so it stores no constructor
/// links at all — and whose rewrite counter starts at zero.
#[verifier::external_body]
pub(crate) fn new_worker(heap_cells: usize) -> (w: hvm::runtime::Worker)
    ensures
        forall|sc: u64| cons_cells_closed(graph_of(w), sc),
        cost_of(w) == 0,
{
    hvm::runtime::new_worker(heap_cells)
}

/// Relies on `hvm::builder::build_runtime_functions`: the compiled rewrite
/// functions of a rule book.  Aborts on a book with more identifiers than
/// the engine's fixed id-table size.
#[verifier::external_body]
pub(crate) fn build_functions(book: &hvm::rulebook::RuleBook) -> (funs: Vec<
    Option<hvm::runtime::Function>,
>) {
    hvm::builder::build_runtime_functions(book)
}

/// Relies on `hvm::builder::build_runtime_arities`: stores the rule book's
/// constructor arities in the worker.  Only the arity table changes; the
/// graph memory and the rewrite counter are untouched.  Aborts on a book
/// with more identifiers than the engine's fixed id-table size.
#[verifier::external_body]
pub(crate) fn set_arities(w: &mut hvm::runtime::Worker, book: &hvm::rulebook::RuleBook)
    ensures
        graph_of(*final(w)) == graph_of(*old(w)),
        cost_of(*final(w)) == cost_of(*old(w)),
{
    w.aris = hvm::builder::build_runtime_arities(book);
}

/// Every constructor name of the term is bound in the symbol table.
pub open spec fn term_names_bound(t: CallTermV, names: Map<Seq<char>, u64>) -> bool
    decreases t,
{
    match t {
        CallTermV::Ctr0 { name } => names.dom().contains(name),
        CallTermV::Ctr1 { name, arg } => names.dom().contains(name) && term_names_bound(*arg, names),
        CallTermV::Ctr2 { name, fst, snd } => names.dom().contains(name)
            && term_names_bound(*fst, names) && term_names_bound(*snd, names),
        CallTermV::Num { .. } => true,
    }
}

/// Relies on the constructors of `hvm::language::Term`: rebuilds the same
/// tree, node for node, in the engine's own term type.
#[verifier::external_body]
fn to_engine_term(t: &crate::term::CallTerm) -> hvm::language::Term {
    match t {
        crate::term::CallTerm::Ctr0 { name } => hvm::language::Term::Ctr { name: name.clone(), args: vec![] },
        crate::term::CallTerm::Ctr1 { name, arg } => hvm::language::Term::Ctr {
            name: name.clone(),
            args: vec![Box::new(to_engine_term(arg))],
        },
        crate::term::CallTerm::Ctr2 { name, fst, snd } => hvm::language::Term::Ctr {
            name: name.clone(),
            args: vec![Box::new(to_engine_term(fst)), Box::new(to_engine_term(snd))],
        },
        crate::term::CallTerm::Num { numb } => hvm::language::Term::Num { numb: *numb },
    }
}

/// Relies on `hvm::builder::alloc_term`: allocates the call term into the
/// worker's graph memory and returns the root location, which lies inside
/// the memory; the memory keeps its length, every constructor it stores
/// still heads a block allocated inside it, and the rewrite counter is
/// untouched (exhausting the memory is undefined in the engine and outside
/// this contract).  The engine aborts on a constructor name that the rule
/// book does not bind, so that is required away here.
#[verifier::external_body]
pub(crate) fn alloc_call(
    w: &mut hvm::runtime::Worker,
    book: &hvm::rulebook::RuleBook,
    t: &crate::term::CallTerm,
) -> (host: u64)
    requires
        term_names_bound(t@, rulebook_names(*book)),
    ensures
        graph_of(*final(w)).dom() == graph_of(*old(w)).dom(),
        graph_of(*final(w)).dom().contains(host),
        forall|sc: u64|
            cons_cells_closed(graph_of(*old(w)), sc) ==> cons_cells_closed(graph_of(*final(w)), sc),
        cost_of(*final(w)) == cost_of(*old(w)),
{
    hvm::builder::alloc_term(w, book, &to_engine_term(t))
}

/// Relies on `hvm::runtime::normal`: reduces the graph at the given
/// location — which must lie inside the memory, since the engine reads it
/// unchecked — to normal form, blocking until done; diverges if the
/// program does.  The memory keeps its length, every constructor it stores
/// still heads a block allocated inside it, and the rewrite counter never
/// decreases.
#[verifier::external_body]
pub(crate) fn normalize(
    w: &mut hvm::runtime::Worker,
    funs: &Vec<Option<hvm::runtime::Function>>,
    book: &hvm::rulebook::RuleBook,
    host: u64,
)
    requires
        graph_of(*old(w)).dom().contains(host),
    ensures
        graph_of(*final(w)).dom() == graph_of(*old(w)).dom(),
        forall|sc: u64|
            cons_cells_closed(graph_of(*old(w)), sc) ==> cons_cells_closed(graph_of(*final(w)), sc),
        cost_of(*final(w)) >= cost_of(*old(w)),
{
    hvm::runtime::normal(w, funs, host, Some(&book.id_to_name), false);
}

/// Relies on the worker's `cost` field: the number of graph rewrites
/// performed so far.
#[verifier::external_body]
pub(crate) fn worker_cost(w: &hvm::runtime::Worker) -> (cost: u64)
    ensures
        cost == cost_of(*w),
{
    w.cost
}

/// The contents of the worker's graph memory: the link stored at each
/// location; the map's domain is exactly the locations under the memory's
/// length.
pub uninterp spec fn graph_of(w: hvm::runtime::Worker) -> Map<u64, u64>;

/// The value field of a link: its low 32 bits — for a constructor node, the
/// location of its first child.
pub open spec fn val_of(lnk: u64) -> u64 {
    lnk & 0xFFFF_FFFF
}

/// Relies on `hvm::runtime::ask_lnk`: the link stored at a location of the
/// worker's graph memory.  The engine does not bound-check the location —
/// one outside the memory's length (the domain of `graph_of`) would be
/// read out of bounds — so only locations inside the memory are admitted.
#[verifier::external_body]
pub(crate) fn ask_lnk(w: &hvm::runtime::Worker, loc: u64) -> (lnk: u64)
    requires
        graph_of(*w).dom().contains(loc),
    ensures
        lnk == graph_of(*w)[loc],
{
    hvm::runtime::ask_lnk(w, loc)
}

/// Relies on `hvm::runtime::ask_arg`: the link of the given child of a
/// node, stored at the node's value field plus the child index.  The engine
/// reads that location unchecked, so only child slots inside the memory
/// are admitted.
#[verifier::external_body]
pub(crate) fn ask_arg(w: &hvm::runtime::Worker, term: u64, arg: u64) -> (lnk: u64)
    requires
        graph_of(*w).dom().contains((val_of(term) + arg) as u64),
    ensures
        lnk == graph_of(*w)[(val_of(term) + arg) as u64],
{
    hvm::runtime::ask_arg(w, term, arg)
}

} // verus!
