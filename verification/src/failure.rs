//! Fatal errors: a root cause and the operations that were in progress when it struck.

use vstd::prelude::*;
use vstd::string::StringExecFns;

verus! {

/// An error that aborts the whole run.
///
/// `contexts` lists the operations that were under way, the innermost first, so that the
/// cause followed by the contexts reads from the most specific to the most general.
#[derive(Clone, Debug, PartialEq, Eq)]
pub struct Failure {
    pub cause: String,
    pub contexts: Vec<String>,
}

/// A failure, as a mathematical value.
pub struct FailureView {
    pub cause: Seq<char>,
    pub contexts: Seq<Seq<char>>,
}

impl FailureView {
    /// A failure with no context yet.
    pub open spec fn bare(cause: Seq<char>) -> FailureView {
        FailureView { cause, contexts: Seq::empty() }
    }

    /// The same failure, seen from the enclosing operation `what`.
    pub open spec fn within(self, what: Seq<char>) -> FailureView {
        FailureView { cause: self.cause, contexts: self.contexts.push(what) }
    }
}

impl View for Failure {
    type V = FailureView;

    open spec fn view(&self) -> FailureView {
        FailureView { cause: self.cause@, contexts: self.contexts.deep_view() }
    }
}

impl DeepView for Failure {
    type V = FailureView;

    open spec fn deep_view(&self) -> FailureView {
        self@
    }
}

impl Failure {
    /// A failure with the cause `cause` and no context yet.
    pub fn new(cause: String) -> (failure: Failure)
        ensures
            failure@ == FailureView::bare(cause@),
    {
        let failure = Failure { cause, contexts: Vec::new() };
        assert(failure.contexts.deep_view() =~= Seq::<Seq<char>>::empty());
        failure
    }

    /// A failure with the cause `cause` and no context yet.
    pub fn because(cause: &str) -> (failure: Failure)
        ensures
            failure@ == FailureView::bare(cause@),
    {
        Failure::new(String::from_str(cause))
    }

    /// Records that the failure happened while doing `what`.
    pub fn context(self, what: String) -> (failure: Failure)
        ensures
            failure@ == self@.within(what@),
    {
        let Failure { cause, contexts } = self;
        let mut contexts = contexts;
        let ghost before = contexts.deep_view();
        contexts.push(what);
        assert(contexts.deep_view() =~= before.push(what@));
        Failure { cause, contexts }
    }
}

} // verus!
