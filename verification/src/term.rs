//! The abstract call terms that this driver hands to the graph-reduction
//! engine.  The driver only ever builds constructor nodes of arity zero, one
//! or two, plus numeric leaves, so the type states that shape by construction
//! instead of carrying an arbitrary argument list.

use vstd::prelude::*;

verus! {

/// An abstract term: a constructor node (arity 0, 1 or 2) or a numeric leaf.
pub enum CallTerm {
    Ctr0 { name: String },
    Ctr1 { name: String, arg: Box<CallTerm> },
    Ctr2 { name: String, fst: Box<CallTerm>, snd: Box<CallTerm> },
    Num { numb: u64 },
}

/// The mathematical shape of a `CallTerm`: the same tree with the constructor
/// names as character sequences.
#[verifier::ext_equal]
pub enum CallTermV {
    Ctr0 { name: Seq<char> },
    Ctr1 { name: Seq<char>, arg: Box<CallTermV> },
    Ctr2 { name: Seq<char>, fst: Box<CallTermV>, snd: Box<CallTermV> },
    Num { numb: u64 },
}

pub open spec fn call_term_view(t: CallTerm) -> CallTermV
    decreases t,
{
    match t {
        CallTerm::Ctr0 { name } => CallTermV::Ctr0 { name: name@ },
        CallTerm::Ctr1 { name, arg } => CallTermV::Ctr1 { name: name@, arg: Box::new(call_term_view(*arg)) },
        CallTerm::Ctr2 { name, fst, snd } => CallTermV::Ctr2 {
            name: name@,
            fst: Box::new(call_term_view(*fst)),
            snd: Box::new(call_term_view(*snd)),
        },
        CallTerm::Num { numb } => CallTermV::Num { numb },
    }
}

impl View for CallTerm {
    type V = CallTermV;

    open spec fn view(&self) -> CallTermV {
        call_term_view(*self)
    }
}

/// Structural equality of two terms, decided against their views.
pub fn term_eq(a: &CallTerm, b: &CallTerm) -> (r: bool)
    ensures
        r == (a@ == b@),
    decreases *a,
{
    match (a, b) {
        (CallTerm::Ctr0 { name: n1 }, CallTerm::Ctr0 { name: n2 }) => *n1 == *n2,
        (CallTerm::Ctr1 { name: n1, arg: a1 }, CallTerm::Ctr1 { name: n2, arg: a2 }) => {
            *n1 == *n2 && term_eq(&**a1, &**a2)
        },
        (CallTerm::Ctr2 { name: n1, fst: f1, snd: s1 }, CallTerm::Ctr2 { name: n2, fst: f2, snd: s2 }) => {
            *n1 == *n2 && term_eq(&**f1, &**f2) && term_eq(&**s1, &**s2)
        },
        (CallTerm::Num { numb: x }, CallTerm::Num { numb: y }) => x == y,
        _ => false,
    }
}

} // verus!
