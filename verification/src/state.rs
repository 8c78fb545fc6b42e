//! What is remembered from one run of the tool to the next.

use vstd::prelude::*;

verus! {

/// The memory of the tool.
#[derive(Clone, Debug, PartialEq, Eq)]
pub struct State {
    /// The contribution guidelines as the operator last read them, if they ever did.
    pub last_contributing: Option<String>,
}

impl View for State {
    type V = Option<Seq<char>>;

    open spec fn view(&self) -> Option<Seq<char>> {
        self.last_contributing.deep_view()
    }
}

impl Default for State {
    fn default() -> (state: State)
        ensures
            state@ is None,
    {
        State { last_contributing: None }
    }
}

} // verus!
