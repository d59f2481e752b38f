//! A program to run, as data: nothing here runs it.

use vstd::prelude::*;

verus! {

/// One run of a program.
#[derive(Debug, Clone, PartialEq, Eq)]
pub struct Invocation {
    pub program: String,
    pub args: Vec<String>,
    /// The directory to run it in, where that is not the caller's own.
    pub current_dir: Option<String>,
}

/// An [`Invocation`] as plain sequences.
pub struct InvocationView {
    pub program: Seq<char>,
    pub args: Seq<Seq<char>>,
    pub current_dir: Option<Seq<char>>,
}

impl View for Invocation {
    type V = InvocationView;

    open spec fn view(&self) -> InvocationView {
        InvocationView {
            program: self.program@,
            args: self.args.deep_view(),
            current_dir: match self.current_dir {
                Some(dir) => Some(dir@),
                None => None,
            },
        }
    }
}

/// The invocations as plain sequences.
pub open spec fn invocation_views(plan: Seq<Invocation>) -> Seq<InvocationView> {
    Seq::new(plan.len(), |i: int| plan[i]@)
}

} // verus!
