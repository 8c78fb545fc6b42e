//! The checks that the scheduler drives, and what they have in common.

use crate::exchange::{step_view, Reply, ReplyView, Side, Step, StepView};
use crate::failure::Failure;
use crate::identity::CheckId;
use vstd::prelude::*;

pub mod ask_pkg_names;
pub mod build_pkg;
pub mod closure_size;
pub mod confirm_contributing;
pub mod environment;
pub mod run_binaries;
pub mod self_version;

verus! {

/// What every check offers to the scheduler.
///
/// A check is run once on the base state and once on the candidate state. Each run is a
/// conversation: it starts with `Reply::Start`, every `Ok(Some(request))` asks for something
/// and expects the matching reply in the next call, and `Ok(None)` ends it. An `Err` is fatal
/// for the whole run; a command that fails or is cancelled is not an error, but a result
/// that the check keeps.
pub trait Check {
    /// The identity, which never changes.
    spec fn identity(&self) -> Seq<char>;

    /// The name shown to the operator.
    spec fn title(&self) -> Seq<char>;

    /// The checks whose need follows from the results gathered so far.
    spec fn discoveries(&self) -> Seq<AnyCheckView>;

    /// Whether `text` can be the paragraph that the check contributes to the report. There
    /// is one such text for every check in every state, but for how the sizes of closures
    /// are rounded.
    spec fn reports(&self, text: Seq<char>) -> bool;

    /// The identity of the check: its kind, and what it was made for.
    fn uuid(&self) -> (id: CheckId)
        ensures
            id@ == self.identity(),
    ;

    /// The name of the check, for the operator.
    fn name(&self) -> (name: String)
        ensures
            name@ == self.title(),
    ;

    /// One step of the run on the checkout before the change.
    fn run_before(&mut self, reply: Reply) -> (step: Step)
        ensures
            final(self).identity() == old(self).identity(),
            final(self).title() == old(self).title(),
    ;

    /// One step of the run on the checkout after the change.
    fn run_after(&mut self, reply: Reply) -> (step: Step)
        ensures
            final(self).identity() == old(self).identity(),
            final(self).title() == old(self).title(),
    ;

    /// The checks that are needed in addition, going by the results gathered so far. An
    /// `Err` is fatal for the whole run.
    fn additional_needed_tests(&self) -> (found: Result<Vec<AnyCheck>, Failure>)
        ensures
            found matches Ok(checks) ==> checks.deep_view() == self.discoveries()
                && checks.len() == self.discoveries().len(),
    ;

    /// The paragraph of the check in the report. It can be asked for at any time: of a run
    /// that was not made, or not made to its end, it says that it has no verdict.
    fn report(&self) -> (text: String)
        ensures
            self.reports(text@),
    ;
}

/// The kinds of check.
#[derive(Clone, Copy, PartialEq, Eq, Structural, Debug)]
pub enum Sort {
    Environment,
    AskPkgNames,
    AskOtherTests,
    ConfirmContributing,
    Build,
    ClosureSize,
    RunTests,
    RunBinaries,
    SelfVersion,
}

/// Any one of the kinds of check.
pub enum AnyCheck {
    Environment(environment::Chk),
    AskPkgNames(ask_pkg_names::Chk),
    AskOtherTests(ask_other_tests::Chk),
    ConfirmContributing(confirm_contributing::Chk),
    Build(build_pkg::Chk),
    ClosureSize(closure_size::Chk),
    RunTests(run_tests::Chk),
    RunBinaries(run_binaries::Chk),
    SelfVersion(self_version::Chk),
}

/// Any one of the kinds of check, as a mathematical value.
pub enum AnyCheckView {
    Environment(environment::ChkView),
    AskPkgNames(ask_pkg_names::ChkView),
    AskOtherTests(ask_other_tests::ChkView),
    ConfirmContributing(confirm_contributing::ChkView),
    Build(build_pkg::ChkView),
    ClosureSize(closure_size::ChkView),
    RunTests(run_tests::ChkView),
    RunBinaries(run_binaries::ChkView),
    SelfVersion(self_version::ChkView),
}

impl View for AnyCheck {
    type V = AnyCheckView;

    open spec fn view(&self) -> AnyCheckView {
        match self {
            AnyCheck::Environment(check) => AnyCheckView::Environment(check@),
            AnyCheck::AskPkgNames(check) => AnyCheckView::AskPkgNames(check@),
            AnyCheck::AskOtherTests(check) => AnyCheckView::AskOtherTests(check@),
            AnyCheck::ConfirmContributing(check) => AnyCheckView::ConfirmContributing(check@),
            AnyCheck::Build(check) => AnyCheckView::Build(check@),
            AnyCheck::ClosureSize(check) => AnyCheckView::ClosureSize(check@),
            AnyCheck::RunTests(check) => AnyCheckView::RunTests(check@),
            AnyCheck::RunBinaries(check) => AnyCheckView::RunBinaries(check@),
            AnyCheck::SelfVersion(check) => AnyCheckView::SelfVersion(check@),
        }
    }
}

impl DeepView for AnyCheck {
    type V = AnyCheckView;

    open spec fn deep_view(&self) -> AnyCheckView {
        self@
    }
}

impl AnyCheckView {
    /// The identity of the check.
    pub open spec fn identity(self) -> Seq<char> {
        match self {
            AnyCheckView::Environment(check) => check.identity(),
            AnyCheckView::AskPkgNames(check) => check.identity(),
            AnyCheckView::AskOtherTests(check) => check.identity(),
            AnyCheckView::ConfirmContributing(check) => check.identity(),
            AnyCheckView::Build(check) => check.identity(),
            AnyCheckView::ClosureSize(check) => check.identity(),
            AnyCheckView::RunTests(check) => check.identity(),
            AnyCheckView::RunBinaries(check) => check.identity(),
            AnyCheckView::SelfVersion(check) => check.identity(),
        }
    }

    /// The name under which the operator knows the check.
    pub open spec fn title(self) -> Seq<char> {
        match self {
            AnyCheckView::Environment(check) => check.title(),
            AnyCheckView::AskPkgNames(check) => check.title(),
            AnyCheckView::AskOtherTests(check) => check.title(),
            AnyCheckView::ConfirmContributing(check) => check.title(),
            AnyCheckView::Build(check) => check.title(),
            AnyCheckView::ClosureSize(check) => check.title(),
            AnyCheckView::RunTests(check) => check.title(),
            AnyCheckView::RunBinaries(check) => check.title(),
            AnyCheckView::SelfVersion(check) => check.title(),
        }
    }

    /// One step of the run on `side`: the check afterwards, and how the step ended.
    pub open spec fn run_on(self, side: Side, reply: ReplyView) -> (AnyCheckView, StepView) {
        match self {
            AnyCheckView::Environment(check) => (
                AnyCheckView::Environment(check.run_on(side, reply).0),
                check.run_on(side, reply).1,
            ),
            AnyCheckView::AskPkgNames(check) => (
                AnyCheckView::AskPkgNames(check.run_on(side, reply).0),
                check.run_on(side, reply).1,
            ),
            AnyCheckView::AskOtherTests(check) => (
                AnyCheckView::AskOtherTests(check.run_on(side, reply).0),
                check.run_on(side, reply).1,
            ),
            AnyCheckView::ConfirmContributing(check) => (
                AnyCheckView::ConfirmContributing(check.run_on(side, reply).0),
                check.run_on(side, reply).1,
            ),
            AnyCheckView::Build(check) => (
                AnyCheckView::Build(check.run_on(side, reply).0),
                check.run_on(side, reply).1,
            ),
            AnyCheckView::ClosureSize(check) => (
                AnyCheckView::ClosureSize(check.run_on(side, reply).0),
                check.run_on(side, reply).1,
            ),
            AnyCheckView::RunTests(check) => (
                AnyCheckView::RunTests(check.run_on(side, reply).0),
                check.run_on(side, reply).1,
            ),
            AnyCheckView::RunBinaries(check) => (
                AnyCheckView::RunBinaries(check.run_on(side, reply).0),
                check.run_on(side, reply).1,
            ),
            AnyCheckView::SelfVersion(check) => (
                AnyCheckView::SelfVersion(check.run_on(side, reply).0),
                check.run_on(side, reply).1,
            ),
        }
    }

    /// The checks whose need follows from the results that the check has gathered.
    pub open spec fn found(self) -> Seq<AnyCheckView> {
        match self {
            AnyCheckView::Environment(check) => check.found(),
            AnyCheckView::AskPkgNames(check) => check.found(),
            AnyCheckView::AskOtherTests(check) => check.found(),
            AnyCheckView::ConfirmContributing(check) => check.found(),
            AnyCheckView::Build(check) => check.found(),
            AnyCheckView::ClosureSize(check) => check.found(),
            AnyCheckView::RunTests(check) => check.found(),
            AnyCheckView::RunBinaries(check) => check.found(),
            AnyCheckView::SelfVersion(check) => check.found(),
        }
    }

    /// Whether `text` can be the paragraph of the check in the report.
    pub open spec fn reports(self, text: Seq<char>) -> bool {
        match self {
            AnyCheckView::Environment(check) => text =~= check.report(),
            AnyCheckView::AskPkgNames(check) => text =~= check.report(),
            AnyCheckView::AskOtherTests(check) => text =~= check.report(),
            AnyCheckView::ConfirmContributing(check) => text =~= check.report(),
            AnyCheckView::Build(check) => text =~= check.report(),
            AnyCheckView::ClosureSize(check) => check.reports(text),
            AnyCheckView::RunTests(check) => text =~= check.report(),
            AnyCheckView::RunBinaries(check) => text =~= check.report(),
            AnyCheckView::SelfVersion(check) => text =~= check.report(),
        }
    }

    /// Which kind of check this is.
    pub open spec fn sort(self) -> Sort {
        match self {
            AnyCheckView::Environment(_) => Sort::Environment,
            AnyCheckView::AskPkgNames(_) => Sort::AskPkgNames,
            AnyCheckView::AskOtherTests(_) => Sort::AskOtherTests,
            AnyCheckView::ConfirmContributing(_) => Sort::ConfirmContributing,
            AnyCheckView::Build(_) => Sort::Build,
            AnyCheckView::ClosureSize(_) => Sort::ClosureSize,
            AnyCheckView::RunTests(_) => Sort::RunTests,
            AnyCheckView::RunBinaries(_) => Sort::RunBinaries,
            AnyCheckView::SelfVersion(_) => Sort::SelfVersion,
        }
    }

    /// The token of the kind of the check. Every kind has a token of its own.
    pub open spec fn kind(self) -> u128 {
        match self {
            AnyCheckView::Environment(_) => environment::KIND,
            AnyCheckView::AskPkgNames(_) => ask_pkg_names::KIND,
            AnyCheckView::AskOtherTests(_) => ask_other_tests::KIND,
            AnyCheckView::ConfirmContributing(_) => confirm_contributing::KIND,
            AnyCheckView::Build(_) => build_pkg::KIND,
            AnyCheckView::ClosureSize(_) => closure_size::KIND,
            AnyCheckView::RunTests(_) => run_tests::KIND,
            AnyCheckView::RunBinaries(_) => run_binaries::KIND,
            AnyCheckView::SelfVersion(_) => self_version::KIND,
        }
    }

    /// The package that the check was made for, where it was made for one.
    pub open spec fn parameter(self) -> Option<Seq<char>> {
        match self {
            AnyCheckView::Build(check) => Some(check.pkg),
            AnyCheckView::ClosureSize(check) => Some(check.pkg),
            AnyCheckView::RunTests(check) => Some(check.pkg),
            AnyCheckView::RunBinaries(check) => Some(check.pkg),
            _ => None,
        }
    }

    /// How many generations of checks this one can still bring about.
    pub open spec fn rank(self) -> nat {
        match self {
            AnyCheckView::Environment(_) => 0,
            AnyCheckView::AskPkgNames(_) => 2,
            AnyCheckView::AskOtherTests(_) => 0,
            AnyCheckView::ConfirmContributing(_) => 0,
            AnyCheckView::Build(_) => 1,
            AnyCheckView::ClosureSize(_) => 0,
            AnyCheckView::RunTests(_) => 0,
            AnyCheckView::RunBinaries(_) => 0,
            AnyCheckView::SelfVersion(_) => 0,
        }
    }
}

impl Check for AnyCheck {
    open spec fn identity(&self) -> Seq<char> {
        self@.identity()
    }

    open spec fn title(&self) -> Seq<char> {
        self@.title()
    }

    open spec fn discoveries(&self) -> Seq<AnyCheckView> {
        self@.found()
    }

    open spec fn reports(&self, text: Seq<char>) -> bool {
        self@.reports(text)
    }

    fn uuid(&self) -> (id: CheckId) {
        match self {
            AnyCheck::Environment(check) => check.uuid(),
            AnyCheck::AskPkgNames(check) => check.uuid(),
            AnyCheck::AskOtherTests(check) => check.uuid(),
            AnyCheck::ConfirmContributing(check) => check.uuid(),
            AnyCheck::Build(check) => check.uuid(),
            AnyCheck::ClosureSize(check) => check.uuid(),
            AnyCheck::RunTests(check) => check.uuid(),
            AnyCheck::RunBinaries(check) => check.uuid(),
            AnyCheck::SelfVersion(check) => check.uuid(),
        }
    }

    fn name(&self) -> (name: String) {
        match self {
            AnyCheck::Environment(check) => check.name(),
            AnyCheck::AskPkgNames(check) => check.name(),
            AnyCheck::AskOtherTests(check) => check.name(),
            AnyCheck::ConfirmContributing(check) => check.name(),
            AnyCheck::Build(check) => check.name(),
            AnyCheck::ClosureSize(check) => check.name(),
            AnyCheck::RunTests(check) => check.name(),
            AnyCheck::RunBinaries(check) => check.name(),
            AnyCheck::SelfVersion(check) => check.name(),
        }
    }

    fn run_before(&mut self, reply: Reply) -> (step: Step)
        ensures
            final(self)@ == old(self)@.run_on(Side::Base, reply@).0,
            step_view(step) == old(self)@.run_on(Side::Base, reply@).1,
    {
        match self {
            AnyCheck::Environment(check) => check.run_before(reply),
            AnyCheck::AskPkgNames(check) => check.run_before(reply),
            AnyCheck::AskOtherTests(check) => check.run_before(reply),
            AnyCheck::ConfirmContributing(check) => check.run_before(reply),
            AnyCheck::Build(check) => check.run_before(reply),
            AnyCheck::ClosureSize(check) => check.run_before(reply),
            AnyCheck::RunTests(check) => check.run_before(reply),
            AnyCheck::RunBinaries(check) => check.run_before(reply),
            AnyCheck::SelfVersion(check) => check.run_before(reply),
        }
    }

    fn run_after(&mut self, reply: Reply) -> (step: Step)
        ensures
            final(self)@ == old(self)@.run_on(Side::Candidate, reply@).0,
            step_view(step) == old(self)@.run_on(Side::Candidate, reply@).1,
    {
        match self {
            AnyCheck::Environment(check) => check.run_after(reply),
            AnyCheck::AskPkgNames(check) => check.run_after(reply),
            AnyCheck::AskOtherTests(check) => check.run_after(reply),
            AnyCheck::ConfirmContributing(check) => check.run_after(reply),
            AnyCheck::Build(check) => check.run_after(reply),
            AnyCheck::ClosureSize(check) => check.run_after(reply),
            AnyCheck::RunTests(check) => check.run_after(reply),
            AnyCheck::RunBinaries(check) => check.run_after(reply),
            AnyCheck::SelfVersion(check) => check.run_after(reply),
        }
    }

    fn additional_needed_tests(&self) -> (found: Result<Vec<AnyCheck>, Failure>)
        ensures
            found is Ok,
    {
        match self {
            AnyCheck::Environment(check) => check.additional_needed_tests(),
            AnyCheck::AskPkgNames(check) => check.additional_needed_tests(),
            AnyCheck::AskOtherTests(check) => check.additional_needed_tests(),
            AnyCheck::ConfirmContributing(check) => check.additional_needed_tests(),
            AnyCheck::Build(check) => check.additional_needed_tests(),
            AnyCheck::ClosureSize(check) => check.additional_needed_tests(),
            AnyCheck::RunTests(check) => check.additional_needed_tests(),
            AnyCheck::RunBinaries(check) => check.additional_needed_tests(),
            AnyCheck::SelfVersion(check) => check.additional_needed_tests(),
        }
    }

    fn report(&self) -> (text: String) {
        match self {
            AnyCheck::Environment(check) => check.report(),
            AnyCheck::AskPkgNames(check) => check.report(),
            AnyCheck::AskOtherTests(check) => check.report(),
            AnyCheck::ConfirmContributing(check) => check.report(),
            AnyCheck::Build(check) => check.report(),
            AnyCheck::ClosureSize(check) => check.report(),
            AnyCheck::RunTests(check) => check.report(),
            AnyCheck::RunBinaries(check) => check.report(),
            AnyCheck::SelfVersion(check) => check.report(),
        }
    }
}

impl AnyCheck {
    /// One step of the run on `side`.
    pub fn run_on(&mut self, side: Side, reply: Reply) -> (step: Step)
        ensures
            final(self)@ == old(self)@.run_on(side, reply@).0,
            step_view(step) == old(self)@.run_on(side, reply@).1,
    {
        match side {
            Side::Base => self.run_before(reply),
            Side::Candidate => self.run_after(reply),
        }
    }
}

/// The identity and the name of a check are fixed: no step of a run changes them.
pub proof fn lemma_run_keeps_identity(check: AnyCheckView, side: Side, reply: ReplyView)
    ensures
        check.run_on(side, reply).0.identity() == check.identity(),
        check.run_on(side, reply).0.title() == check.title(),
{
}

/// Every kind of check has a token of its own.
pub proof fn lemma_kinds_tell_sorts_apart(a: AnyCheckView, b: AnyCheckView)
    ensures
        a.kind() == b.kind() <==> a.sort() == b.sort(),
{
}

/// Two checks have the same identity exactly if they are of the same kind and were made
/// for the same package, or both for none: nothing else sets checks apart for the
/// scheduler, and nothing less.
pub proof fn lemma_identity_is_kind_and_parameter(a: AnyCheckView, b: AnyCheckView)
    ensures
        a.identity() == b.identity() <==> (a.sort() == b.sort() && a.parameter()
            == b.parameter()),
{
    let pkg_a = match a.parameter() {
        Some(pkg) => pkg,
        None => Seq::empty(),
    };
    let pkg_b = match b.parameter() {
        Some(pkg) => pkg,
        None => Seq::empty(),
    };
    lemma_kinds_tell_sorts_apart(a, b);
    crate::identity::lemma_identity_is_kind_and_parameter(a.kind(), pkg_a, b.kind(), pkg_b);
    crate::identity::lemma_plain_identity_differs_from_parameterised(a.kind(), b.kind(), pkg_b);
    crate::identity::lemma_plain_identity_differs_from_parameterised(b.kind(), a.kind(), pkg_a);
}

/// The rank of a check is fixed: no step of a run changes it.
pub proof fn lemma_run_keeps_rank(check: AnyCheckView, side: Side, reply: ReplyView)
    ensures
        check.run_on(side, reply).0.rank() == check.rank(),
{
}

/// What a check discovers is of a kind that can bring about fewer generations of checks
/// than its own: no chain of discoveries leads back to an ancestor's kind, and none is longer
/// than two.
pub proof fn lemma_found_ranks_lower(check: AnyCheckView)
    ensures
        check.rank() <= 2,
        forall|i: int| 0 <= i < check.found().len() ==> (#[trigger] check.found()[i]).rank()
            < check.rank(),
{
}

} // verus!
