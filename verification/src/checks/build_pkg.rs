//! Builds a package on both sides, and decides from how the builds end what else to check.

use crate::checks::{closure_size, run_binaries, run_tests, AnyCheck, AnyCheckView, Check};
use crate::exchange::{
    out_of_turn, out_of_turn_text, Arg, ArgView, Location, LocationView, Reply, ReplyView, Request,
    RequestView, Side, Step, StepOutcome, StepView, step_view,
};
use crate::failure::{Failure, FailureView};
use crate::identity::{parameterised_identity, CheckId};
use crate::nix_eval_for;
use crate::nix_eval_text;
use crate::text::cat3;
use vstd::prelude::*;
use vstd::string::StringExecFns;

verus! {

/// The kind of this check.
pub const KIND: u128 = 0xe2ab3c62ae1f22bd6eee85fb675eaa53;

/// Where a run stands.
#[derive(Clone, Copy, PartialEq, Eq, Structural, Debug)]
pub enum Stage {
    /// No run is under way.
    Idle,
    /// The directory for the results was asked for.
    Scratching,
    /// The build is under way.
    Building,
}

/// The build of one package on both sides.
pub struct Chk {
    pkg: String,
    builds_before: StepOutcome,
    builds_after: StepOutcome,
    outs_dir: Option<String>,
    stage: Stage,
}

/// The check as a mathematical value.
pub struct ChkView {
    pub pkg: Seq<char>,
    pub builds_before: StepOutcome,
    pub builds_after: StepOutcome,
    /// The directory below which the results are linked, once it is made.
    pub outs_dir: Option<Seq<char>>,
    pub stage: Stage,
}

impl ChkView {
    /// The check as it is made, before anything was asked or run.
    pub open spec fn fresh(pkg: Seq<char>) -> ChkView {
        ChkView {
            pkg,
            builds_before: StepOutcome::Interrupted,
            builds_after: StepOutcome::Interrupted,
            outs_dir: None,
            stage: Stage::Idle,
        }
    }

    /// No build is started, let alone ended, before there is a directory for its result.
    pub open spec fn housed(self) -> bool {
        (self.stage == Stage::Building || self.builds_before != StepOutcome::Interrupted
            || self.builds_after != StepOutcome::Interrupted) ==> self.outs_dir is Some
    }

    /// The identity of the check.
    pub open spec fn identity(self) -> Seq<char> {
        parameterised_identity(KIND, self.pkg)
    }

    /// The name under which the operator knows the check.
    pub open spec fn title(self) -> Seq<char> {
        "build("@ + self.pkg + ")"@
    }

    /// The command that builds the package on `side` and links the result below `dir`.
    pub open spec fn building(self, side: Side, dir: Seq<char>) -> RequestView {
        RequestView::Run {
            capture_stdout: false,
            program: LocationView::at("nix"@),
            args: seq![
                ArgView::Text("build"@),
                ArgView::Text("--out-link"@),
                ArgView::Path(LocationView::at(dir).below(side.label_text())),
                ArgView::Text(nix_eval_text(self.pkg)),
            ],
        }
    }

    /// What was under way when the build on `side` failed to run.
    pub open spec fn building_context(self, side: Side) -> Seq<char> {
        "building the "@ + side.label_text() + " version of package "@ + self.pkg
    }

    /// The check once the build on `side` ended with `outcome`.
    pub open spec fn with_outcome(self, side: Side, outcome: StepOutcome) -> ChkView {
        match side {
            Side::Base => ChkView { builds_before: outcome, stage: Stage::Idle, ..self },
            Side::Candidate => ChkView { builds_after: outcome, stage: Stage::Idle, ..self },
        }
    }

    /// One step of the build on `side`.
    pub open spec fn run_on(self, side: Side, reply: ReplyView) -> (ChkView, StepView) {
        match (self.stage, reply) {
            (Stage::Idle, ReplyView::Start) => match self.outs_dir {
                None => (
                    ChkView { stage: Stage::Scratching, ..self },
                    Ok(Some(RequestView::Scratch)),
                ),
                Some(dir) => (
                    ChkView { stage: Stage::Building, ..self },
                    Ok(Some(self.building(side, dir))),
                ),
            },
            (Stage::Scratching, ReplyView::Scratch(dir)) => (
                ChkView { outs_dir: Some(dir), stage: Stage::Building, ..self },
                Ok(Some(self.building(side, dir))),
            ),
            (Stage::Scratching, ReplyView::Failed(failure)) => (
                ChkView { stage: Stage::Idle, ..self },
                Err(failure.within("creating temporary directory to hold build results"@)),
            ),
            (Stage::Building, ReplyView::Ran(run)) => (
                self.with_outcome(side, StepOutcome::of_run(run)),
                Ok(None),
            ),
            (Stage::Building, ReplyView::Failed(failure)) => (
                ChkView { stage: Stage::Idle, ..self },
                Err(failure.within(self.building_context(side))),
            ),
            _ => (self, Err(FailureView::bare(out_of_turn_text()))),
        }
    }

    /// The checks that the outcomes call for. Where either build was interrupted there is
    /// no verdict, and nothing follows. Otherwise the tests and the binaries are tried if
    /// the candidate side built, and the closures are compared as well if both sides built.
    pub open spec fn found(self) -> Seq<AnyCheckView> {
        if self.builds_before == StepOutcome::Interrupted || self.builds_after
            != StepOutcome::Success {
            Seq::<AnyCheckView>::empty()
        } else {
            let sizes = if self.builds_before == StepOutcome::Success {
                seq![AnyCheckView::ClosureSize(closure_size::ChkView::fresh(self.pkg))]
            } else {
                Seq::<AnyCheckView>::empty()
            };
            sizes + seq![
                AnyCheckView::RunTests(run_tests::ChkView::fresh(self.pkg)),
                AnyCheckView::RunBinaries(
                    run_binaries::ChkView::fresh(self.pkg, self.outs_dir->0),
                ),
            ]
        }
    }

    /// How an outcome that is no interruption is put in words.
    pub open spec fn passed_text(outcome: StepOutcome) -> Seq<char> {
        if outcome == StepOutcome::Success {
            "passed"@
        } else {
            "did not pass"@
        }
    }

    /// What the two outcomes come to.
    pub open spec fn verdict(self) -> Seq<char> {
        match (self.builds_before, self.builds_after) {
            (StepOutcome::Interrupted, StepOutcome::Interrupted) => "😢 both builds interrupted"@,
            (StepOutcome::Interrupted, after) => "😢 base build interrupted, to-check build "@
                + Self::passed_text(after),
            (before, StepOutcome::Interrupted) => "😢 to-check build interrupted, base build "@
                + Self::passed_text(before),
            (StepOutcome::Success, StepOutcome::Success) => "✔ continued building"@,
            (StepOutcome::Success, StepOutcome::Failure) => "❌ stopped building"@,
            (StepOutcome::Failure, StepOutcome::Success) => "💚 started building again"@,
            (StepOutcome::Failure, StepOutcome::Failure) => "😢 still does not build"@,
        }
    }

    /// The paragraph of the check in the report.
    pub open spec fn report(self) -> Seq<char> {
        "**package "@ + self.pkg + ":** "@ + self.verdict()
    }
}

impl View for Chk {
    type V = ChkView;

    closed spec fn view(&self) -> ChkView {
        ChkView {
            pkg: self.pkg@,
            builds_before: self.builds_before,
            builds_after: self.builds_after,
            outs_dir: self.outs_dir.deep_view(),
            stage: self.stage,
        }
    }
}

impl Chk {
    #[verifier::type_invariant]
    closed spec fn housed(&self) -> bool {
        self@.housed()
    }

    /// A check that will build `pkg`.
    pub fn new(pkg: String) -> (check: Chk)
        ensures
            check@ == ChkView::fresh(pkg@),
    {
        Chk {
            pkg,
            builds_before: StepOutcome::Interrupted,
            builds_after: StepOutcome::Interrupted,
            outs_dir: None,
            stage: Stage::Idle,
        }
    }

    /// How the build on `side` ended.
    pub fn outcome(&self, side: Side) -> (outcome: StepOutcome)
        ensures
            outcome == (match side {
                Side::Base => self@.builds_before,
                Side::Candidate => self@.builds_after,
            }),
    {
        match side {
            Side::Base => self.builds_before,
            Side::Candidate => self.builds_after,
        }
    }

    fn building(&self, side: Side, dir: &str) -> (request: Request)
        ensures
            request@ == self@.building(side, dir@),
    {
        let mut args: Vec<Arg> = Vec::new();
        args.push(Arg::Text(String::from_str("build")));
        args.push(Arg::Text(String::from_str("--out-link")));
        args.push(Arg::Path(Location::at(dir).below(side.label())));
        args.push(Arg::Text(nix_eval_for(self.pkg.as_str())));
        assert(args.deep_view() =~= self@.building(side, dir@)->Run_args);
        Request::Run { capture_stdout: false, program: Location::at("nix"), args }
    }

    fn building_context(&self, side: Side) -> (text: String)
        ensures
            text@ == self@.building_context(side),
    {
        let mut text = String::from_str("building the ");
        text.append(side.label());
        text.append(" version of package ");
        text.append(self.pkg.as_str());
        text
    }

    /// One step of the build on `side`.
    pub fn run_on(&mut self, side: Side, reply: Reply) -> (step: Step)
        ensures
            final(self)@ == old(self)@.run_on(side, reply@).0,
            step_view(step) == old(self)@.run_on(side, reply@).1,
    {
        proof {
            use_type_invariant(&*self);
        }
        match (self.stage, reply) {
            (Stage::Idle, Reply::Start) => match &self.outs_dir {
                None => {
                    self.stage = Stage::Scratching;
                    Ok(Some(Request::Scratch))
                },
                Some(dir) => {
                    let request = self.building(side, dir.as_str());
                    self.stage = Stage::Building;
                    Ok(Some(request))
                },
            },
            (Stage::Scratching, Reply::Scratch(dir)) => {
                let request = self.building(side, dir.as_str());
                self.outs_dir = Some(dir);
                self.stage = Stage::Building;
                Ok(Some(request))
            },
            (Stage::Scratching, Reply::Failed(failure)) => {
                self.stage = Stage::Idle;
                Err(
                    failure.context(
                        String::from_str("creating temporary directory to hold build results"),
                    ),
                )
            },
            (Stage::Building, Reply::Ran(run)) => {
                match side {
                    Side::Base => {
                        self.builds_before = StepOutcome::of(&run);
                    },
                    Side::Candidate => {
                        self.builds_after = StepOutcome::of(&run);
                    },
                }
                self.stage = Stage::Idle;
                Ok(None)
            },
            (Stage::Building, Reply::Failed(failure)) => {
                let context = self.building_context(side);
                self.stage = Stage::Idle;
                Err(failure.context(context))
            },
            _ => Err(out_of_turn()),
        }
    }

    fn passed_shown(outcome: StepOutcome) -> (text: &'static str)
        ensures
            text@ == ChkView::passed_text(outcome),
    {
        match outcome {
            StepOutcome::Success => "passed",
            _ => "did not pass",
        }
    }
}

impl Check for Chk {
    open spec fn identity(&self) -> Seq<char> {
        self@.identity()
    }

    open spec fn title(&self) -> Seq<char> {
        self@.title()
    }

    open spec fn discoveries(&self) -> Seq<AnyCheckView> {
        self@.found()
    }

    open spec fn reports(&self, text: Seq<char>) -> bool {
        text =~= self@.report()
    }

    fn uuid(&self) -> (id: CheckId) {
        CheckId::from_uuid_param(KIND, self.pkg.as_str())
    }

    fn name(&self) -> (name: String) {
        cat3("build(", self.pkg.as_str(), ")")
    }

    fn run_before(&mut self, reply: Reply) -> (step: Step)
        ensures
            final(self)@ == old(self)@.run_on(Side::Base, reply@).0,
            step_view(step) == old(self)@.run_on(Side::Base, reply@).1,
    {
        self.run_on(Side::Base, reply)
    }

    fn run_after(&mut self, reply: Reply) -> (step: Step)
        ensures
            final(self)@ == old(self)@.run_on(Side::Candidate, reply@).0,
            step_view(step) == old(self)@.run_on(Side::Candidate, reply@).1,
    {
        self.run_on(Side::Candidate, reply)
    }

    fn additional_needed_tests(&self) -> (found: Result<Vec<AnyCheck>, Failure>)
        ensures
            found is Ok,
    {
        proof {
            use_type_invariant(self);
        }
        let mut found: Vec<AnyCheck> = Vec::new();
        let verdicts = self.builds_before != StepOutcome::Interrupted && self.builds_after
            != StepOutcome::Interrupted;
        if verdicts && self.builds_before == StepOutcome::Success && self.builds_after
            == StepOutcome::Success {
            found.push(AnyCheck::ClosureSize(closure_size::Chk::new(self.pkg.clone())));
        }
        if verdicts && self.builds_after == StepOutcome::Success {
            match &self.outs_dir {
                Some(dir) => {
                    found.push(AnyCheck::RunTests(run_tests::Chk::new(self.pkg.clone())));
                    found.push(
                        AnyCheck::RunBinaries(
                            run_binaries::Chk::new(self.pkg.clone(), dir.clone()),
                        ),
                    );
                },
                None => {
                    assert(false);
                },
            }
        }
        assert(found.deep_view() =~= self@.found());
        Ok(found)
    }

    fn report(&self) -> (text: String) {
        let mut text = cat3("**package ", self.pkg.as_str(), ":** ");
        match (self.builds_before, self.builds_after) {
            (StepOutcome::Interrupted, StepOutcome::Interrupted) => {
                text.append("😢 both builds interrupted");
            },
            (StepOutcome::Interrupted, after) => {
                text.append("😢 base build interrupted, to-check build ");
                text.append(Chk::passed_shown(after));
            },
            (before, StepOutcome::Interrupted) => {
                text.append("😢 to-check build interrupted, base build ");
                text.append(Chk::passed_shown(before));
            },
            (StepOutcome::Success, StepOutcome::Success) => {
                text.append("✔ continued building");
            },
            (StepOutcome::Success, StepOutcome::Failure) => {
                text.append("❌ stopped building");
            },
            (StepOutcome::Failure, StepOutcome::Success) => {
                text.append("💚 started building again");
            },
            (StepOutcome::Failure, StepOutcome::Failure) => {
                text.append("😢 still does not build");
            },
        }
        text
    }
}

/// Stepping a check that keeps its results housed leaves them housed.
pub proof fn lemma_run_keeps_housed(check: ChkView, side: Side, reply: ReplyView)
    requires
        check.housed(),
    ensures
        check.run_on(side, reply).0.housed(),
{
}

/// The outcomes decide what follows. Nothing follows where either build was interrupted,
/// nor where the candidate build failed. What follows otherwise is the trial of the tests
/// and of the binaries, and in front of them the comparison of the closures exactly if the
/// base side built too.
pub proof fn lemma_outcome_decides_discoveries(check: ChkView)
    ensures
        check.builds_before == StepOutcome::Interrupted || check.builds_after
            == StepOutcome::Interrupted ==> check.found().len() == 0,
        check.builds_after == StepOutcome::Failure ==> check.found().len() == 0,
        check.found().len() > 0 <==> check.builds_before != StepOutcome::Interrupted
            && check.builds_after == StepOutcome::Success,
        check.found().len() == 3 <==> check.builds_before == StepOutcome::Success
            && check.builds_after == StepOutcome::Success,
        check.found().len() == 2 <==> check.builds_before == StepOutcome::Failure
            && check.builds_after == StepOutcome::Success,
        forall|i: int|
            0 <= i < check.found().len() ==> (#[trigger] check.found()[i]).parameter() == Some(
                check.pkg,
            ),
{
}

} // verus!
