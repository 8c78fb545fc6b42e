//! Records which version of the tool ran the checks, and on what platform.

use crate::checks::{AnyCheck, AnyCheckView, Check};
use crate::exchange::{
    out_of_turn, out_of_turn_text, Reply, ReplyView, Side, Step, StepView, step_view,
};
use crate::failure::{Failure, FailureView};
use crate::identity::{plain_identity, CheckId};
use vstd::prelude::*;
use vstd::string::StringExecFns;

verus! {

/// The kind of this check.
pub const KIND: u128 = 0x9c1f4a7e2d3b48c6a5e0f1b27d8c3e49;

/// The version of the tool that runs the checks.
pub struct Chk {
    tool: String,
    version: String,
    platform: String,
}

/// The check as a mathematical value.
pub struct ChkView {
    /// The name of the tool that runs the checks.
    pub tool: Seq<char>,
    /// Its version.
    pub version: Seq<char>,
    /// The operating system, as detected.
    pub platform: Seq<char>,
}

impl ChkView {
    /// The identity of the check.
    pub open spec fn identity(self) -> Seq<char> {
        plain_identity(KIND)
    }

    /// The name under which the operator knows the check.
    pub open spec fn title(self) -> Seq<char> {
        "check-self-version"@
    }

    /// There is nothing to do on either side.
    pub open spec fn run_on(self, side: Side, reply: ReplyView) -> (ChkView, StepView) {
        match reply {
            ReplyView::Start => (self, Ok(None)),
            _ => (self, Err(FailureView::bare(out_of_turn_text()))),
        }
    }

    /// This check never calls for further checks.
    pub open spec fn found(self) -> Seq<AnyCheckView> {
        Seq::empty()
    }

    /// The paragraph of the check in the report.
    pub open spec fn report(self) -> Seq<char> {
        "**version:** `"@ + self.tool + " v"@ + self.version + "` on "@ + self.platform
    }
}

impl View for Chk {
    type V = ChkView;

    closed spec fn view(&self) -> ChkView {
        ChkView { tool: self.tool@, version: self.version@, platform: self.platform@ }
    }
}

impl Chk {
    /// A check for the tool `tool` in version `version`, running on `platform`.
    pub fn new(tool: String, version: String, platform: String) -> (check: Chk)
        ensures
            check@ == (ChkView { tool: tool@, version: version@, platform: platform@ }),
    {
        Chk { tool, version, platform }
    }

    /// One step of the run on `side`.
    pub fn run_on(&mut self, side: Side, reply: Reply) -> (step: Step)
        ensures
            final(self)@ == old(self)@.run_on(side, reply@).0,
            step_view(step) == old(self)@.run_on(side, reply@).1,
    {
        match reply {
            Reply::Start => Ok(None),
            _ => Err(crate::exchange::out_of_turn()),
        }
    }
}

impl Check for Chk {
    open spec fn identity(&self) -> Seq<char> {
        self@.identity()
    }

    open spec fn title(&self) -> Seq<char> {
        self@.title()
    }

    open spec fn discoveries(&self) -> Seq<AnyCheckView> {
        self@.found()
    }

    open spec fn reports(&self, text: Seq<char>) -> bool {
        text =~= self@.report()
    }

    fn uuid(&self) -> (id: CheckId) {
        CheckId::from_uuid(KIND)
    }

    fn name(&self) -> (name: String) {
        String::from_str("check-self-version")
    }

    fn run_before(&mut self, reply: Reply) -> (step: Step)
        ensures
            final(self)@ == old(self)@.run_on(Side::Base, reply@).0,
            step_view(step) == old(self)@.run_on(Side::Base, reply@).1,
    {
        self.run_on(Side::Base, reply)
    }

    fn run_after(&mut self, reply: Reply) -> (step: Step)
        ensures
            final(self)@ == old(self)@.run_on(Side::Candidate, reply@).0,
            step_view(step) == old(self)@.run_on(Side::Candidate, reply@).1,
    {
        self.run_on(Side::Candidate, reply)
    }

    fn additional_needed_tests(&self) -> (found: Result<Vec<AnyCheck>, Failure>)
        ensures
            found is Ok,
    {
        let found: Vec<AnyCheck> = Vec::new();
        assert(found.deep_view() =~= Seq::<AnyCheckView>::empty());
        Ok(found)
    }

    fn report(&self) -> (text: String) {
        let mut text = String::from_str("**version:** `");
        text.append(self.tool.as_str());
        text.append(" v");
        text.append(self.version.as_str());
        text.append("` on ");
        text.append(self.platform.as_str());
        text
    }
}

} // verus!
