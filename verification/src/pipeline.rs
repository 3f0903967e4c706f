//! The driver pipeline: compile the program text, assemble the call term
//! that invokes an embedded entry point on the encoded argument, allocate
//! it into the engine's graph memory, reduce it to normal form, and decode
//! the reduced graph back into text.

use vstd::prelude::*;

use crate::cli::{entry_name, entry_name_v, CliCmd};
use crate::codec::{build_str_term, cons_name, nil_name, str_term_v};
use crate::engine;
use crate::engine::{cons_cells_closed, graph_of, nums_ok, parse_err_of, parse_ok, rulebook_names, term_names_bound};
use vstd::string::StringExecFns;
use crate::readback::{classify_v, head_code_v, read_string, DecodeError, NodeClass};
use crate::term::{CallTerm, CallTermV};

verus! {

/// Bytes of extra stack granted around the engine's recursion-heavy
/// compile, allocate and reduce sequence.
pub const STACK_GROW_BYTES: usize = 64 * 1024 * 1024;

/// The abstract call term `<entry>(<encoded argument>)`.
pub open spec fn call_term_v(name: Seq<char>, s: Seq<char>) -> CallTermV {
    CallTermV::Ctr1 { name: name, arg: Box::new(str_term_v(s)) }
}

/// Builds the call term that invokes `entry` on the encoded `argm`.  The
/// entry-point name is not validated here: an unknown entry point surfaces
/// later, when the pipeline resolves names against the compiled rule book.
pub fn assemble(entry: &str, argm: &str) -> (t: CallTerm)
    ensures
        t@ == call_term_v(entry@, argm@),
{
    let arg = build_str_term(argm);
    let t = CallTerm::Ctr1 { name: entry.to_owned(), arg: Box::new(arg) };
    proof {
        assert(t@ == CallTermV::Ctr1 { name: entry@, arg: Box::new(str_term_v(argm@)) });
    }
    t
}

/// The entry-point name of a call term.
pub open spec fn call_name_v(t: CallTermV) -> Seq<char> {
    match t {
        CallTermV::Ctr1 { name, .. } => name,
        _ => Seq::empty(),
    }
}

/// The argument of a call term.
pub open spec fn call_arg_v(t: CallTermV) -> CallTermV {
    match t {
        CallTermV::Ctr1 { arg, .. } => *arg,
        _ => t,
    }
}

/// Entry-point selection: for one argument text, the call terms assembled
/// for two entry points carry the same argument encoding — the encoding of
/// that text — and differ only in the entry-point name.
pub proof fn lemma_entry_selection(n1: Seq<char>, n2: Seq<char>, s: Seq<char>)
    ensures
        call_arg_v(call_term_v(n1, s)) == call_arg_v(call_term_v(n2, s)),
        call_arg_v(call_term_v(n1, s)) == str_term_v(s),
        call_name_v(call_term_v(n1, s)) == n1,
        call_name_v(call_term_v(n2, s)) == n2,
{
}

/// An encoded string mentions no constructor beyond cons and nil, so a
/// symbol table that binds those two binds every name in it.
pub proof fn lemma_str_term_names(s: Seq<char>, names: Map<Seq<char>, u64>)
    requires
        names.dom().contains(cons_name()),
        names.dom().contains(nil_name()),
    ensures
        term_names_bound(str_term_v(s), names),
    decreases s.len(),
{
    if s.len() == 0 {
        assert(str_term_v(s) == (CallTermV::Ctr0 { name: nil_name() }));
        assert(term_names_bound(str_term_v(s), names));
    } else {
        let tail = s.subrange(1, s.len() as int);
        lemma_str_term_names(tail, names);
        assert(str_term_v(s) == (CallTermV::Ctr2 {
            name: cons_name(),
            fst: Box::new(CallTermV::Num { numb: s[0] as u64 }),
            snd: Box::new(str_term_v(tail)),
        }));
        assert(term_names_bound(CallTermV::Num { numb: s[0] as u64 }, names));
        assert(term_names_bound(str_term_v(s), names));
    }
}

/// What a completed pipeline run reports: the number of graph rewrites the
/// reduction performed, and the decoded output text.
pub struct RunOutput {
    pub rewrites: u64,
    pub text: String,
}

/// The ways a pipeline run fails.
#[derive(Debug)]
pub enum DriverError {
    /// The user's file could not be read; carries the I/O message.
    FileRead { msg: String },
    /// The program text did not compile; carries the engine's message.
    Compile { msg: String },
    /// The compiled program binds no identifier for this name, which the
    /// pipeline needs to encode or decode strings or to invoke the entry
    /// point.
    MissingSymbol { name: String },
    /// The reduced graph is not a well-formed encoded string.
    Decode { err: DecodeError },
}

/// Runs a compiled program: resolves the string constructors and the entry
/// point in its rule book — each absent name is an explicit, reported
/// error, never a silent default — then allocates the call, reduces it and
/// decodes the result.
pub fn run_compiled(
    book: &hvm::rulebook::RuleBook,
    call_fn_name: &str,
    call_fn_argm: &str,
    heap_cells: usize,
) -> (r: Result<RunOutput, DriverError>)
    ensures
        !(r matches Err(DriverError::FileRead { .. })),
        !(r matches Err(DriverError::Compile { .. })),
        !rulebook_names(*book).dom().contains(cons_name()) ==> (r matches Err(
            DriverError::MissingSymbol { name },
        ) && name@ == cons_name()),
        rulebook_names(*book).dom().contains(cons_name()) && !rulebook_names(*book).dom().contains(
            nil_name(),
        ) ==> (r matches Err(DriverError::MissingSymbol { name }) && name@ == nil_name()),
        rulebook_names(*book).dom().contains(cons_name()) && rulebook_names(*book).dom().contains(
            nil_name(),
        ) && !rulebook_names(*book).dom().contains(call_fn_name@) ==> (r matches Err(
            DriverError::MissingSymbol { name },
        ) && name@ == call_fn_name@),
        rulebook_names(*book).dom().contains(cons_name()) && rulebook_names(*book).dom().contains(
            nil_name(),
        ) && rulebook_names(*book).dom().contains(call_fn_name@) ==> !(r matches Err(
            DriverError::MissingSymbol { .. },
        )),
        r matches Err(DriverError::Decode { err }) ==> err == DecodeError::Unterminated
            || (exists|term: u64, sc: u64, sn: u64|
                classify_v(term, sc, sn) == (NodeClass::Bad { err }))
            || (exists|head: u64| head_code_v(head) == Err::<u64, DecodeError>(err)),
{
    let str_cons = match engine::symbol_id(book, "StrCons") {
        Some(id) => id,
        None => {
            return Err(DriverError::MissingSymbol { name: String::from_str("StrCons") });
        },
    };
    let str_nil = match engine::symbol_id(book, "StrNil") {
        Some(id) => id,
        None => {
            return Err(DriverError::MissingSymbol { name: String::from_str("StrNil") });
        },
    };
    if engine::symbol_id(book, call_fn_name).is_none() {
        return Err(DriverError::MissingSymbol { name: call_fn_name.to_owned() });
    }

    let mut worker = engine::new_worker(heap_cells);
    let funs = engine::build_functions(book);
    engine::set_arities(&mut worker, book);

    let main_call = assemble(call_fn_name, call_fn_argm);
    proof {
        lemma_str_term_names(call_fn_argm@, rulebook_names(*book));
        assert(term_names_bound(main_call@, rulebook_names(*book)));
        assert(cons_cells_closed(graph_of(worker), str_cons));
    }
    let main_pos = engine::alloc_call(&mut worker, book, &main_call);

    engine::normalize(&mut worker, &funs, book, main_pos);
    let rewrites = engine::worker_cost(&worker);

    match read_string(&worker, main_pos, str_cons, str_nil, heap_cells as u64) {
        Ok(text) => Ok(RunOutput { rewrites, text }),
        Err(err) => Err(DriverError::Decode { err }),
    }
}

/// Runs one pipeline pass: compiles `code`, invokes the entry point
/// `call_fn_name` on the encoded `call_fn_argm` in a graph memory of
/// `heap_cells` cells, and decodes the reduced graph.  Building the rule
/// book can abort the process on some sources that parse (see
/// `make_rulebook`); the contract describes the runs that return.
pub fn do_the_thing(
    code: &str,
    call_fn_name: &str,
    call_fn_argm: &str,
    heap_cells: usize,
) -> (r: Result<RunOutput, DriverError>)
    ensures
        !(r matches Err(DriverError::FileRead { .. })),
        (r matches Err(DriverError::Compile { .. })) <==> !(nums_ok(code@) && parse_ok(code@)),
        nums_ok(code@) ==> (r matches Err(DriverError::Compile { msg }) ==> msg@ == parse_err_of(
            code@,
        )),
        r matches Err(DriverError::MissingSymbol { name }) ==> name@ == cons_name()
            || name@ == nil_name() || name@ == call_fn_name@,
        r matches Err(DriverError::Decode { err }) ==> err == DecodeError::Unterminated
            || (exists|term: u64, sc: u64, sn: u64|
                classify_v(term, sc, sn) == (NodeClass::Bad { err }))
            || (exists|head: u64| head_code_v(head) == Err::<u64, DecodeError>(err)),
{
    if !engine::text_nums_ok(code) {
        return Err(DriverError::Compile {
            msg: String::from_str("the program text holds a numeral the engine cannot read"),
        });
    }
    let file = match engine::parse_code(code) {
        Ok(file) => file,
        Err(msg) => {
            return Err(DriverError::Compile { msg });
        },
    };
    let book = engine::make_rulebook(&file);
    run_compiled(&book, call_fn_name, call_fn_argm, heap_cells)
}

/// Relies on `stacker::grow`: runs the closure — one pipeline pass of the
/// verified `do_the_thing` — on a stack with at least `STACK_GROW_BYTES`
/// free bytes and hands its result back unchanged, so this contract is the
/// contract of `do_the_thing`.  The enlarged stack tolerates the engine's
/// deep native recursion during reduction.
#[verifier::external_body]
fn do_the_thing_grown(
    code: &str,
    call_fn_name: &str,
    call_fn_argm: &str,
    heap_cells: usize,
) -> (r: Result<RunOutput, DriverError>)
    ensures
        !(r matches Err(DriverError::FileRead { .. })),
        (r matches Err(DriverError::Compile { .. })) <==> !(nums_ok(code@) && parse_ok(code@)),
        nums_ok(code@) ==> (r matches Err(DriverError::Compile { msg }) ==> msg@ == parse_err_of(
            code@,
        )),
        r matches Err(DriverError::MissingSymbol { name }) ==> name@ == cons_name()
            || name@ == nil_name() || name@ == call_fn_name@,
        r matches Err(DriverError::Decode { err }) ==> err == DecodeError::Unterminated
            || (exists|term: u64, sc: u64, sn: u64|
                classify_v(term, sc, sn) == (NodeClass::Bad { err }))
            || (exists|head: u64| head_code_v(head) == Err::<u64, DecodeError>(err)),
{
    stacker::grow(STACK_GROW_BYTES, || do_the_thing(code, call_fn_name, call_fn_argm, heap_cells))
}

/// Dispatches one command: selects the entry point, fails up front if the
/// user's file could not be read — before any engine work — and otherwise
/// concatenates the embedded program text verbatim ahead of the loaded file
/// text, forming the full source program, and runs the pipeline on it under
/// an enlarged stack, with the file text as the entry point's argument.
pub fn run_command(
    cmd: &CliCmd,
    file_text: Result<String, String>,
    base_code: &str,
    heap_cells: usize,
) -> (r: Result<RunOutput, DriverError>)
    ensures
        file_text matches Err(m) ==> r == Err::<RunOutput, DriverError>(
            DriverError::FileRead { msg: m },
        ),
        (r matches Err(DriverError::FileRead { .. })) ==> file_text matches Err(_),
        file_text matches Ok(u) ==> ((r matches Err(DriverError::Compile { .. })) <==> !(nums_ok(
            base_code@ + u@,
        ) && parse_ok(base_code@ + u@))),
        file_text matches Ok(u) ==> (nums_ok(base_code@ + u@) ==> (r matches Err(
            DriverError::Compile { msg },
        ) ==> msg@ == parse_err_of(base_code@ + u@))),
        r matches Err(DriverError::MissingSymbol { name }) ==> name@ == cons_name()
            || name@ == nil_name() || name@ == entry_name_v(*cmd),
        r matches Err(DriverError::Decode { err }) ==> err == DecodeError::Unterminated
            || (exists|term: u64, sc: u64, sn: u64|
                classify_v(term, sc, sn) == (NodeClass::Bad { err }))
            || (exists|head: u64| head_code_v(head) == Err::<u64, DecodeError>(err)),
{
    let name = entry_name(cmd);
    match file_text {
        Err(msg) => Err(DriverError::FileRead { msg }),
        Ok(text) => {
            let source = base_code.to_owned().concat(text.as_str());
            do_the_thing_grown(source.as_str(), name, text.as_str(), heap_cells)
        },
    }
}

} // verus!
