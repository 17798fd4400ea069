//! Diagnostics: what the attribute reports instead of an expansion.
use vstd::prelude::*;

verus! {

/// A message attached to a node of the input (see the `site` numbers of
/// [`crate::syntax`]).
#[derive(Debug)]
pub struct Diagnostic {
    pub site: usize,
    pub message: String,
}

/// A refused input.
#[derive(Debug)]
pub enum Failure {
    /// Errors attached to input nodes, reported in order.
    Spanned(Vec<Diagnostic>),
    /// A `compile_error!` with this message, attached to no node.
    Bare(String),
}

/// The mathematical form of a [`Failure`].
pub enum FailureV {
    Spanned(Seq<(usize, Seq<char>)>),
    Bare(Seq<char>),
}

impl View for Diagnostic {
    type V = (usize, Seq<char>);

    open spec fn view(&self) -> (usize, Seq<char>) {
        (self.site, self.message@)
    }
}

impl View for Failure {
    type V = FailureV;

    open spec fn view(&self) -> FailureV {
        match self {
            Failure::Spanned(v) => FailureV::Spanned(Seq::new(v.len() as nat, |i: int| v@[i]@)),
            Failure::Bare(m) => FailureV::Bare(m@),
        }
    }
}

/// One error at `site`.
pub open spec fn single(site: usize, message: Seq<char>) -> FailureV {
    FailureV::Spanned(seq![(site, message)])
}

/// A failure with one error at `site`.
pub fn fail_at(site: usize, message: String) -> (r: Failure)
    ensures
        r@ == single(site, message@),
{
    let mut v = Vec::new();
    v.push(Diagnostic { site, message });
    let r = Failure::Spanned(v);
    assert(r@ == single(site, message@)) by {
        if let FailureV::Spanned(s) = r@ {
            assert(s =~= seq![(site, message@)]);
        }
    }
    r
}

} // verus!
