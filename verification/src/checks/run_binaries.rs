//! Lets the operator try the binaries of a package, and compares what they say of them.

use crate::checks::{AnyCheck, AnyCheckView, Check};
use crate::exchange::{
    out_of_turn, out_of_turn_text, Arg, ArgView, Location, LocationView, Reply, ReplyView, Request,
    RequestView, Side, Step, StepView, step_view,
};
use crate::failure::{Failure, FailureView};
use crate::identity::{parameterised_identity, CheckId};
use crate::text::{
    begins_with, cat3, debug_text, dedup, distinct, finishes_with, glue, holds, join, joined,
    quoted, split, split_on,
};
use vstd::prelude::*;
use vstd::string::StringExecFns;

verus! {

/// The kind of this check.
pub const KIND: u128 = 0x72a00d3835657d0f526fac33a9764ba8;

/// What came of the run of a binary.
#[derive(Clone, Copy, PartialEq, Eq, Structural, Debug)]
pub enum Verdict {
    /// The binary was not run: the operator did not ask for it, or its turn has not come.
    NotRun,
    /// The operator cancelled the run: there is no verdict.
    Interrupted,
    /// The binary ran, and the operator says that it worked.
    Worked,
    /// The binary ran, and the operator says that it did not work.
    Failed,
}

impl DeepView for Verdict {
    type V = Verdict;

    open spec fn deep_view(&self) -> Verdict {
        *self
    }
}

impl Verdict {
    /// The verdict that the answer of the operator stands for.
    pub open spec fn of(worked: bool) -> Verdict {
        if worked {
            Verdict::Worked
        } else {
            Verdict::Failed
        }
    }
}

/// A binary that only the candidate side has, and what came of its run.
pub type Added = (String, Verdict);

/// An added binary, as a mathematical value.
pub type AddedView = (Seq<char>, Verdict);

/// A binary that both sides have, and what came of its run on the base side and on the
/// candidate side.
pub type Updated = (String, Verdict, Verdict);

/// An updated binary, as a mathematical value.
pub type UpdatedView = (Seq<char>, Verdict, Verdict);

/// One run of a binary that the operator asked for.
#[derive(Clone, Debug, PartialEq, Eq)]
pub struct Trial {
    pub bin: String,
    pub side: Side,
    /// Whether the binary is one that only the candidate side has.
    pub fresh: bool,
    /// Where the binary stands among those of its sort.
    pub slot: usize,
}

/// A run that the operator asked for, as a mathematical value.
pub struct TrialView {
    pub bin: Seq<char>,
    pub side: Side,
    pub fresh: bool,
    pub slot: usize,
}

impl View for Trial {
    type V = TrialView;

    open spec fn view(&self) -> TrialView {
        TrialView { bin: self.bin@, side: self.side, fresh: self.fresh, slot: self.slot }
    }
}

impl DeepView for Trial {
    type V = TrialView;

    open spec fn deep_view(&self) -> TrialView {
        self@
    }
}

/// Whether `name` is that of a hidden program which a wrapper script stands in front of.
pub open spec fn wrapped_name(name: Seq<char>) -> bool {
    "."@.is_prefix_of(name) && "-wrapped"@.is_suffix_of(name)
}

/// The names that are not those of hidden programs behind wrapper scripts.
pub open spec fn plain() -> spec_fn(Seq<char>) -> bool {
    |name: Seq<char>| !wrapped_name(name)
}

/// The binaries among the entries of a directory.
pub open spec fn binaries(names: Seq<Seq<char>>) -> Seq<Seq<char>> {
    distinct(names.filter(plain()))
}

/// The names of the entries of a directory, if every one of them is text.
pub open spec fn readable(entries: Seq<Option<Seq<char>>>) -> Option<Seq<Seq<char>>> {
    if forall|i: int| 0 <= i < entries.len() ==> (#[trigger] entries[i]) is Some {
        Some(Seq::new(entries.len(), |i: int| entries[i]->0))
    } else {
        None
    }
}

/// What is said of a directory of `side` that has an entry whose name is no text. The
/// braces stand as they are.
pub open spec fn unreadable_text(side: Side) -> Seq<char> {
    match side {
        Side::Base => "a base binary for {} had a non-utf8 name"@,
        Side::Candidate => "a to-check binary for {} had a non-utf8 name"@,
    }
}

/// The names that `list` holds.
pub open spec fn within(list: Seq<Seq<char>>) -> spec_fn(Seq<char>) -> bool {
    |name: Seq<char>| list.contains(name)
}

/// The names that `list` does not hold.
pub open spec fn outside(list: Seq<Seq<char>>) -> spec_fn(Seq<char>) -> bool {
    |name: Seq<char>| !list.contains(name)
}

/// An added binary of which nothing is known yet.
pub open spec fn not_run() -> spec_fn(Seq<char>) -> AddedView {
    |name: Seq<char>| (name, Verdict::NotRun)
}

/// An updated binary of which nothing is known yet.
pub open spec fn not_run_twice() -> spec_fn(Seq<char>) -> UpdatedView {
    |name: Seq<char>| (name, Verdict::NotRun, Verdict::NotRun)
}

/// A piece of a line as an argument.
pub open spec fn as_text() -> spec_fn(Seq<char>) -> ArgView {
    |piece: Seq<char>| ArgView::Text(piece)
}

/// The runs asked for among the binaries that only the candidate side has, going through the
/// first `n` of `candidates`. Such a binary is run on the candidate side, the only one that
/// has it.
pub open spec fn added_trials(
    candidates: Seq<Seq<char>>,
    base: Seq<Seq<char>>,
    ticked: Seq<usize>,
    n: nat,
) -> Seq<TrialView>
    decreases n,
{
    if n == 0 {
        Seq::empty()
    } else {
        let sofar = added_trials(candidates, base, ticked, (n - 1) as nat);
        let bin = candidates[n - 1];
        if !base.contains(bin) && ticked.contains((n - 1) as usize) {
            sofar.push(
                TrialView {
                    bin,
                    side: Side::Candidate,
                    fresh: true,
                    slot: candidates.take(n - 1).filter(outside(base)).len() as usize,
                },
            )
        } else {
            sofar
        }
    }
}

/// The runs asked for among the binaries that both sides have, going through the first `n`
/// of `candidates`: each on the base side, then on the candidate side.
pub open spec fn updated_trials(
    candidates: Seq<Seq<char>>,
    base: Seq<Seq<char>>,
    ticked: Seq<usize>,
    n: nat,
) -> Seq<TrialView>
    decreases n,
{
    if n == 0 {
        Seq::empty()
    } else {
        let sofar = updated_trials(candidates, base, ticked, (n - 1) as nat);
        let bin = candidates[n - 1];
        let slot = candidates.take(n - 1).filter(within(base)).len() as usize;
        if base.contains(bin) && ticked.contains((n - 1) as usize) {
            sofar.push(TrialView { bin, side: Side::Base, fresh: false, slot }).push(
                TrialView { bin, side: Side::Candidate, fresh: false, slot },
            )
        } else {
            sofar
        }
    }
}

/// The binaries that `entries` speaks of.
pub open spec fn added_names(entries: Seq<AddedView>) -> Seq<Seq<char>> {
    entries.map_values(|entry: AddedView| entry.0)
}

/// The binaries that `entries` speaks of.
pub open spec fn updated_names(entries: Seq<UpdatedView>) -> Seq<Seq<char>> {
    entries.map_values(|entry: UpdatedView| entry.0)
}

/// The arguments offered to the operator at the `attempt`-th try of a binary.
pub open spec fn suggestion(attempt: nat) -> Option<Seq<char>> {
    if attempt == 0 {
        Some("--version"@)
    } else if attempt == 1 {
        Some("--help"@)
    } else if attempt == 2 {
        Some("-h"@)
    } else if attempt == 3 {
        Some("-V"@)
    } else {
        None
    }
}

/// The line of the report for an added binary.
pub open spec fn added_line() -> spec_fn(AddedView) -> Seq<char> {
    |entry: AddedView|
        match entry.1 {
            Verdict::NotRun => "    * 😢 "@ + entry.0 + " was not run\n"@,
            Verdict::Interrupted => "    * 😢 "@ + entry.0 + " was interrupted\n"@,
            Verdict::Worked => "    * ✔ "@ + entry.0 + " was run successfully\n"@,
            Verdict::Failed => "    * 😢 "@ + entry.0 + " was run unsuccessfully\n"@,
        }
}

/// The line of the report for an updated binary. A binary whose run was interrupted on
/// either side has no verdict; one that was not run on both sides counts as not run.
pub open spec fn updated_line() -> spec_fn(UpdatedView) -> Seq<char> {
    |entry: UpdatedView|
        match (entry.1, entry.2) {
            (Verdict::Worked, Verdict::Worked) => "    * ✔ "@ + entry.0
                + " continued running successfully\n"@,
            (Verdict::Worked, Verdict::Failed) => "    * ❌ "@ + entry.0 + " started failing\n"@,
            (Verdict::Failed, Verdict::Worked) => "    * 💚 "@ + entry.0
                + " started running successfully again\n"@,
            (Verdict::Failed, Verdict::Failed) => "    * 😢 "@ + entry.0 + " still fails\n"@,
            (Verdict::Interrupted, _) => "    * 😢 "@ + entry.0 + " was interrupted\n"@,
            (_, Verdict::Interrupted) => "    * 😢 "@ + entry.0 + " was interrupted\n"@,
            _ => "    * 😢 "@ + entry.0 + " was not run\n"@,
        }
}

/// How a removed binary is shown in the report.
pub open spec fn shown() -> spec_fn(Seq<char>) -> Seq<char> {
    |name: Seq<char>| debug_text(name)
}

/// Where a run stands.
#[derive(Clone, Copy, PartialEq, Eq, Structural, Debug)]
pub enum Stage {
    /// No run is under way.
    Idle,
    /// The binaries of the base side were asked for.
    ListingBase,
    /// The binaries of the candidate side were asked for.
    ListingCandidate,
    /// The operator is choosing the binaries to run.
    Choosing,
    /// The operator is typing the arguments for the run at hand.
    Asking,
    /// The binary is running.
    Running,
    /// The operator is saying whether it worked.
    Judging,
}

/// How far the trial of the binaries came.
#[derive(Clone, Copy, PartialEq, Eq, Structural, Debug)]
pub enum Survey {
    /// The binaries were never looked for, or not to the point where the operator chose.
    NotAttempted,
    /// The build of the base side has no binaries, so that there is nothing to compare
    /// with.
    NoBaseBinaries,
    /// The binaries of both sides were listed and the operator chose which to run.
    Done,
}

/// The trial of the binaries of one package by the operator.
pub struct Chk {
    pkg: String,
    outs_dir: String,
    survey: Survey,
    new_bins: Vec<Added>,
    updated_bins: Vec<Updated>,
    removed_bins: Vec<String>,
    stage: Stage,
    base_bins: Vec<String>,
    candidates: Vec<String>,
    trials: Vec<Trial>,
    next: usize,
    attempt: usize,
}

/// The check as a mathematical value.
pub struct ChkView {
    pub pkg: Seq<char>,
    /// The directory below which the builds of both sides are linked.
    pub outs_dir: Seq<char>,
    /// How far the trial came.
    pub survey: Survey,
    pub new_bins: Seq<AddedView>,
    pub updated_bins: Seq<UpdatedView>,
    pub removed_bins: Seq<Seq<char>>,
    pub stage: Stage,
    /// The binaries of the base side, while a run is under way.
    pub base_bins: Seq<Seq<char>>,
    /// The binaries of the candidate side, while a run is under way.
    pub candidates: Seq<Seq<char>>,
    /// The runs that the operator asked for.
    pub trials: Seq<TrialView>,
    /// How many of them are done.
    pub next: nat,
    /// How many tries were made on the run at hand.
    pub attempt: nat,
}

impl ChkView {
    /// The check as it is made, before anything was asked or run.
    pub open spec fn fresh(pkg: Seq<char>, outs_dir: Seq<char>) -> ChkView {
        ChkView {
            pkg,
            outs_dir,
            survey: Survey::NotAttempted,
            new_bins: Seq::empty(),
            updated_bins: Seq::empty(),
            removed_bins: Seq::empty(),
            stage: Stage::Idle,
            base_bins: Seq::empty(),
            candidates: Seq::empty(),
            trials: Seq::empty(),
            next: 0,
            attempt: 0,
        }
    }

    /// No binary is listed twice: not among those of a side, and not among the removed,
    /// the added or the updated ones.
    pub open spec fn unique(self) -> bool {
        &&& self.removed_bins.no_duplicates()
        &&& added_names(self.new_bins).no_duplicates()
        &&& updated_names(self.updated_bins).no_duplicates()
        &&& self.base_bins.no_duplicates()
        &&& self.candidates.no_duplicates()
    }

    /// The identity of the check.
    pub open spec fn identity(self) -> Seq<char> {
        parameterised_identity(KIND, self.pkg)
    }

    /// The name under which the operator knows the check.
    pub open spec fn title(self) -> Seq<char> {
        "run-binaries("@ + self.pkg + ")"@
    }

    /// Where the binaries of `side` are.
    pub open spec fn bin_dir(self, side: Side) -> LocationView {
        LocationView::at(self.outs_dir).below(side.label_text()).below("bin"@)
    }

    /// The request for the binaries of `side`. Only the base side may be without any.
    pub open spec fn listing(self, side: Side) -> RequestView {
        RequestView::List { dir: self.bin_dir(side), optional: side == Side::Base }
    }

    /// What was under way when the binaries of `side` could not be listed.
    pub open spec fn listing_context(self, side: Side) -> Seq<char> {
        "listing the "@ + side.label_text() + " binaries for "@ + self.pkg
    }

    /// The question which binaries are to be run.
    pub open spec fn choosing(self) -> RequestView {
        RequestView::Choose {
            prompt: "which binaries of package "@ + self.pkg + " do you want to run?"@,
            items: self.candidates,
            all_ticked: false,
        }
    }

    /// The question for the arguments of `trial`.
    pub open spec fn asking(self, trial: TrialView) -> RequestView {
        RequestView::Ask {
            prompt: "what arguments should we pass to the "@ + trial.side.label_text()
                + " version of "@ + trial.bin + " in package "@ + self.pkg + "?"@,
            initial: suggestion(self.attempt),
        }
    }

    /// The run of `trial` with the arguments that the operator typed on `line`.
    pub open spec fn running(self, trial: TrialView, line: Seq<char>) -> RequestView {
        RequestView::Run {
            capture_stdout: false,
            program: self.bin_dir(trial.side).below(trial.bin),
            args: split_on(line, ' ').map_values(as_text()),
        }
    }

    /// The question whether the binary worked.
    pub open spec fn judging() -> RequestView {
        RequestView::Pick {
            prompt: "did the binary work?"@,
            items: seq!["Yes"@, "No"@, "Try again with other arguments"@],
            preselected: 2,
        }
    }

    /// What was under way when the binary of `trial` could not be run.
    pub open spec fn running_context(self, trial: TrialView) -> Seq<char> {
        "running binary "@ + trial.bin + " of package "@ + self.pkg
    }

    /// The check with no run under way.
    pub open spec fn idle(self) -> ChkView {
        ChkView {
            stage: Stage::Idle,
            base_bins: Seq::empty(),
            candidates: Seq::empty(),
            trials: Seq::empty(),
            next: 0,
            attempt: 0,
            ..self
        }
    }

    /// The check once the operator ticked the binaries at the positions `ticked`: what was
    /// found before is replaced, and the runs to make are laid out.
    pub open spec fn planned(self, ticked: Seq<usize>) -> ChkView {
        ChkView {
            survey: Survey::Done,
            removed_bins: self.base_bins.filter(outside(self.candidates)),
            new_bins: self.candidates.filter(outside(self.base_bins)).map_values(not_run()),
            updated_bins: self.candidates.filter(within(self.base_bins)).map_values(
                not_run_twice(),
            ),
            trials: added_trials(
                self.candidates,
                self.base_bins,
                ticked,
                self.candidates.len(),
            ) + updated_trials(self.candidates, self.base_bins, ticked, self.candidates.len()),
            next: 0,
            attempt: 0,
            ..self
        }
    }

    /// What comes after the runs in front of `next` are done.
    pub open spec fn proceed(self) -> (ChkView, StepView) {
        if self.next < self.trials.len() {
            (
                ChkView { stage: Stage::Asking, ..self },
                Ok(Some(self.asking(self.trials[self.next as int]))),
            )
        } else {
            (self.idle(), Ok(None))
        }
    }

    /// The check once the run at hand came to `worked`.
    pub open spec fn judged(self, worked: Verdict) -> ChkView {
        let trial = self.trials[self.next as int];
        let slot = trial.slot as int;
        if trial.fresh {
            if slot < self.new_bins.len() {
                ChkView {
                    new_bins: self.new_bins.update(slot, (self.new_bins[slot].0, worked)),
                    next: self.next + 1,
                    attempt: 0,
                    ..self
                }
            } else {
                ChkView { next: self.next + 1, attempt: 0, ..self }
            }
        } else {
            if slot < self.updated_bins.len() {
                let entry = self.updated_bins[slot];
                ChkView {
                    updated_bins: self.updated_bins.update(
                        slot,
                        match trial.side {
                            Side::Base => (entry.0, worked, entry.2),
                            Side::Candidate => (entry.0, entry.1, worked),
                        },
                    ),
                    next: self.next + 1,
                    attempt: 0,
                    ..self
                }
            } else {
                ChkView { next: self.next + 1, attempt: 0, ..self }
            }
        }
    }

    /// One step of the run on `side`. Nothing is done on the base side. On the candidate
    /// side the operator chooses among the binaries and judges every binary that ran. A
    /// binary that the operator cancels has no verdict, and the trials go on.
    pub open spec fn run_on(self, side: Side, reply: ReplyView) -> (ChkView, StepView) {
        let refused = (
            self,
            Err::<Option<RequestView>, FailureView>(FailureView::bare(out_of_turn_text())),
        );
        let at_hand = self.next < self.trials.len();
        match (self.stage, reply) {
            (Stage::Idle, ReplyView::Start) => match side {
                Side::Base => (self, Ok(None)),
                Side::Candidate => (
                    ChkView { stage: Stage::ListingBase, ..self },
                    Ok(Some(self.listing(Side::Base))),
                ),
            },
            (Stage::ListingBase, ReplyView::Listed(None)) => (
                ChkView { survey: Survey::NoBaseBinaries, ..self }.idle(),
                Ok(None),
            ),
            (Stage::ListingBase, ReplyView::Listed(Some(entries))) => match readable(entries) {
                None => (self.idle(), Err(FailureView::bare(unreadable_text(Side::Base)))),
                Some(names) => (
                    ChkView { stage: Stage::ListingCandidate, base_bins: binaries(names), ..self },
                    Ok(Some(self.listing(Side::Candidate))),
                ),
            },
            (Stage::ListingBase, ReplyView::Failed(failure)) => (
                self.idle(),
                Err(failure.within(self.listing_context(Side::Base))),
            ),
            (Stage::ListingCandidate, ReplyView::Listed(Some(entries))) => match readable(
                entries,
            ) {
                None => (self.idle(), Err(FailureView::bare(unreadable_text(Side::Candidate)))),
                Some(names) => (
                    ChkView { stage: Stage::Choosing, candidates: binaries(names), ..self },
                    Ok(Some(ChkView { candidates: binaries(names), ..self }.choosing())),
                ),
            },
            (Stage::ListingCandidate, ReplyView::Failed(failure)) => (
                self.idle(),
                Err(failure.within(self.listing_context(Side::Candidate))),
            ),
            (Stage::Choosing, ReplyView::Chosen(ticked)) => self.planned(ticked).proceed(),
            (Stage::Choosing, ReplyView::Failed(failure)) => (
                self.idle(),
                Err(failure.within("asking the user which binaries they want to run"@)),
            ),
            (Stage::Asking, ReplyView::Answered(line)) => if at_hand {
                (
                    ChkView { stage: Stage::Running, ..self },
                    Ok(Some(self.running(self.trials[self.next as int], line))),
                )
            } else {
                refused
            },
            (Stage::Asking, ReplyView::Failed(failure)) => (
                self.idle(),
                Err(failure.within("asking the user what parameters to pass"@)),
            ),
            (Stage::Running, ReplyView::Ran(None)) => if at_hand {
                self.judged(Verdict::Interrupted).proceed()
            } else {
                refused
            },
            (Stage::Running, ReplyView::Ran(Some(_))) => (
                ChkView { stage: Stage::Judging, ..self },
                Ok(Some(Self::judging())),
            ),
            (Stage::Running, ReplyView::Failed(failure)) => if at_hand {
                (
                    self.idle(),
                    Err(failure.within(self.running_context(self.trials[self.next as int]))),
                )
            } else {
                refused
            },
            (Stage::Judging, ReplyView::Picked(position)) => if !at_hand {
                refused
            } else if position == 0 {
                self.judged(Verdict::Worked).proceed()
            } else if position == 1 {
                self.judged(Verdict::Failed).proceed()
            } else {
                ChkView {
                    attempt: if self.attempt < 4 {
                        self.attempt + 1
                    } else {
                        self.attempt
                    },
                    ..self
                }.proceed()
            },
            (Stage::Judging, ReplyView::Failed(failure)) => (
                self.idle(),
                Err(failure.within("asking the user whether the binary worked"@)),
            ),
            _ => refused,
        }
    }

    /// Trying binaries never calls for further checks.
    pub open spec fn found(self) -> Seq<AnyCheckView> {
        Seq::empty()
    }

    /// The part of the report on the removed binaries.
    pub open spec fn removed_text(self) -> Seq<char> {
        if self.removed_bins.len() == 0 {
            Seq::empty()
        } else {
            "  * *removed binaries:* 😢 {"@ + joined(self.removed_bins.map_values(shown()), ", "@)
                + "}\n"@
        }
    }

    /// The part of the report on the added binaries.
    pub open spec fn added_text(self) -> Seq<char> {
        if self.new_bins.len() == 0 {
            Seq::empty()
        } else {
            "  * *added binaries:*\n"@ + self.new_bins.map_values(added_line()).flatten() + "\n"@
        }
    }

    /// The part of the report on the updated binaries.
    pub open spec fn updated_text(self) -> Seq<char> {
        if self.updated_bins.len() == 0 {
            Seq::empty()
        } else {
            "  * *updated binaries:*\n"@ + self.updated_bins.map_values(updated_line()).flatten()
                + "\n"@
        }
    }

    /// The paragraph of the check in the report. Where the trial did not come to the point
    /// at which the operator chose, the paragraph says that the binaries were not attempted.
    pub open spec fn report(self) -> Seq<char> {
        match self.survey {
            Survey::NotAttempted => "**binaries of "@ + self.pkg
                + ":** 😢 binaries were not attempted"@,
            Survey::NoBaseBinaries => "**binaries of "@ + self.pkg
                + ":** 😢 binaries were not attempted: the base build has none"@,
            Survey::Done => if self.new_bins.len() == 0 && self.updated_bins.len() == 0
                && self.removed_bins.len() == 0 {
                "**binaries of "@ + self.pkg + ":** 😢 there are no binaries"@
            } else {
                "**binaries of "@ + self.pkg + ":**\n"@ + self.removed_text() + self.added_text()
                    + self.updated_text()
            },
        }
    }
}

/// A check starts with no binary listed at all.
pub proof fn lemma_fresh_is_unique(pkg: Seq<char>, outs_dir: Seq<char>)
    ensures
        ChkView::fresh(pkg, outs_dir).unique(),
{
    assert(added_names(Seq::<AddedView>::empty()) =~= Seq::<Seq<char>>::empty());
    assert(updated_names(Seq::<UpdatedView>::empty()) =~= Seq::<Seq<char>>::empty());
}

/// Laying out the runs lists every binary once.
pub proof fn lemma_plan_is_unique(check: ChkView, ticked: Seq<usize>)
    requires
        check.unique(),
    ensures
        check.planned(ticked).unique(),
{
    let base = check.base_bins;
    let candidates = check.candidates;
    crate::text::lemma_filter_keeps_distinct(base, outside(candidates));
    crate::text::lemma_filter_keeps_distinct(candidates, outside(base));
    crate::text::lemma_filter_keeps_distinct(candidates, within(base));
    assert(added_names(candidates.filter(outside(base)).map_values(not_run()))
        =~= candidates.filter(outside(base)));
    assert(updated_names(candidates.filter(within(base)).map_values(not_run_twice()))
        =~= candidates.filter(within(base)));
}

/// Every step keeps every binary listed once, whatever the directories hold and whatever
/// the operator answers.
pub proof fn lemma_run_keeps_unique(check: ChkView, side: Side, reply: ReplyView)
    requires
        check.unique(),
    ensures
        check.run_on(side, reply).0.unique(),
{
    match reply {
        ReplyView::Listed(Some(entries)) => {
            if let Some(names) = readable(entries) {
                crate::text::lemma_distinct(names.filter(plain()));
            }
        },
        ReplyView::Chosen(ticked) => {
            lemma_plan_is_unique(check, ticked);
        },
        ReplyView::Picked(position) => {
            if check.next < check.trials.len() {
                let after = check.judged(Verdict::of(position == 0));
                assert(added_names(after.new_bins) =~= added_names(check.new_bins));
                assert(updated_names(after.updated_bins) =~= updated_names(check.updated_bins));
            }
        },
        ReplyView::Ran(None) => {
            if check.next < check.trials.len() {
                let after = check.judged(Verdict::Interrupted);
                assert(added_names(after.new_bins) =~= added_names(check.new_bins));
                assert(updated_names(after.updated_bins) =~= updated_names(check.updated_bins));
            }
        },
        _ => {},
    }
}

impl View for Chk {
    type V = ChkView;

    closed spec fn view(&self) -> ChkView {
        ChkView {
            pkg: self.pkg@,
            outs_dir: self.outs_dir@,
            survey: self.survey,
            new_bins: self.new_bins.deep_view(),
            updated_bins: self.updated_bins.deep_view(),
            removed_bins: self.removed_bins.deep_view(),
            stage: self.stage,
            base_bins: self.base_bins.deep_view(),
            candidates: self.candidates.deep_view(),
            trials: self.trials.deep_view(),
            next: self.next as nat,
            attempt: self.attempt as nat,
        }
    }
}

/// Whether `name` is that of a hidden program which a wrapper script stands in front of.
pub fn is_wrapped(name: &str) -> (yes: bool)
    ensures
        yes == wrapped_name(name@),
{
    begins_with(name, ".") && finishes_with(name, "-wrapped")
}

/// The binaries among the entries of a directory.
pub fn binaries_among(names: &Vec<String>) -> (bins: Vec<String>)
    ensures
        bins.deep_view() == binaries(names.deep_view()),
{
    let mut kept: Vec<String> = Vec::new();
    let mut i: usize = 0;
    proof {
        reveal(Seq::filter);
        assert(names.deep_view().take(0) =~= Seq::<Seq<char>>::empty());
        assert(kept.deep_view() =~= Seq::<Seq<char>>::empty());
    }
    while i < names.len()
        invariant
            i <= names.len(),
            kept.deep_view() == names.deep_view().take(i as int).filter(plain()),
        decreases names.len() - i,
    {
        proof {
            let done = names.deep_view().take(i as int);
            done.lemma_filter_push(names.deep_view()[i as int], plain());
            assert(names.deep_view().take(i + 1) =~= done.push(names.deep_view()[i as int]));
        }
        if !is_wrapped(names[i].as_str()) {
            let ghost before = kept.deep_view();
            kept.push(names[i].clone());
            assert(kept.deep_view() =~= before.push(names.deep_view()[i as int]));
        }
        i = i + 1;
    }
    assert(names.deep_view().take(names.len() as int) =~= names.deep_view());
    dedup(&kept)
}

/// The names of the entries of a directory, if every one of them is text.
fn names_of(entries: Vec<Option<String>>) -> (names: Option<Vec<String>>)
    ensures
        names.deep_view() == readable(entries.deep_view()),
{
    let mut names: Vec<String> = Vec::new();
    let mut i: usize = 0;
    while i < entries.len()
        invariant
            i <= entries.len(),
            names@.len() == i,
            forall|j: int| 0 <= j < i ==> entries.deep_view()[j] == Some(#[trigger] names@[j]@),
        decreases entries.len() - i,
    {
        match &entries[i] {
            None => {
                assert(!(entries.deep_view()[i as int] is Some));
                return None;
            },
            Some(name) => {
                names.push(name.clone());
            },
        }
        i = i + 1;
    }
    assert forall|j: int| 0 <= j < entries.deep_view().len() implies (
    #[trigger] entries.deep_view()[j]) is Some by {
        assert(entries.deep_view()[j] == Some(names@[j]@));
    }
    assert forall|j: int| 0 <= j < entries.deep_view().len() implies names.deep_view()[j]
        == entries.deep_view()[j]->0 by {
        assert(entries.deep_view()[j] == Some(names@[j]@));
    }
    assert(names.deep_view() =~= readable(entries.deep_view())->0);
    Some(names)
}

fn unreadable(side: Side) -> (failure: Failure)
    ensures
        failure@ == FailureView::bare(unreadable_text(side)),
{
    match side {
        Side::Base => Failure::because("a base binary for {} had a non-utf8 name"),
        Side::Candidate => Failure::because("a to-check binary for {} had a non-utf8 name"),
    }
}

/// The items of `items` that `list` holds, or those that it does not hold.
fn sift(items: &Vec<String>, list: &Vec<String>, inside: bool) -> (picked: Vec<String>)
    ensures
        picked.deep_view() == items.deep_view().filter(
            if inside {
                within(list.deep_view())
            } else {
                outside(list.deep_view())
            },
        ),
{
    let ghost wanted = if inside {
        within(list.deep_view())
    } else {
        outside(list.deep_view())
    };
    let mut picked: Vec<String> = Vec::new();
    let mut i: usize = 0;
    proof {
        reveal(Seq::filter);
        assert(items.deep_view().take(0) =~= Seq::<Seq<char>>::empty());
        assert(picked.deep_view() =~= Seq::<Seq<char>>::empty());
    }
    while i < items.len()
        invariant
            i <= items.len(),
            wanted == if inside {
                within(list.deep_view())
            } else {
                outside(list.deep_view())
            },
            picked.deep_view() == items.deep_view().take(i as int).filter(wanted),
        decreases items.len() - i,
    {
        let held = holds(list, items[i].as_str());
        proof {
            let done = items.deep_view().take(i as int);
            done.lemma_filter_push(items.deep_view()[i as int], wanted);
            assert(items.deep_view().take(i + 1) =~= done.push(items.deep_view()[i as int]));
        }
        if held == inside {
            let ghost before = picked.deep_view();
            picked.push(items[i].clone());
            assert(picked.deep_view() =~= before.push(items.deep_view()[i as int]));
        }
        i = i + 1;
    }
    assert(items.deep_view().take(items.len() as int) =~= items.deep_view());
    picked
}

/// Whether `position` is among `ticked`.
fn is_ticked(ticked: &Vec<usize>, position: usize) -> (yes: bool)
    ensures
        yes == ticked@.contains(position),
{
    let mut i: usize = 0;
    while i < ticked.len()
        invariant
            i <= ticked.len(),
            forall|j: int| 0 <= j < i ==> ticked@[j] != position,
        decreases ticked.len() - i,
    {
        if ticked[i] == position {
            return true;
        }
        i = i + 1;
    }
    false
}

/// The runs to make, in order.
fn lay_out(candidates: &Vec<String>, base: &Vec<String>, ticked: &Vec<usize>) -> (trials: Vec<
    Trial,
>)
    ensures
        trials.deep_view() == added_trials(
            candidates.deep_view(),
            base.deep_view(),
            ticked@,
            candidates.len() as nat,
        ) + updated_trials(
            candidates.deep_view(),
            base.deep_view(),
            ticked@,
            candidates.len() as nat,
        ),
{
    let ghost c = candidates.deep_view();
    let ghost b = base.deep_view();
    let mut trials: Vec<Trial> = Vec::new();
    let mut slot: usize = 0;
    let mut i: usize = 0;
    proof {
        reveal(Seq::filter);
        assert(c.take(0) =~= Seq::<Seq<char>>::empty());
        assert(trials.deep_view() =~= Seq::<TrialView>::empty());
    }
    while i < candidates.len()
        invariant
            i <= candidates.len(),
            c == candidates.deep_view(),
            b == base.deep_view(),
            slot == c.take(i as int).filter(outside(b)).len(),
            slot <= i,
            trials.deep_view() == added_trials(c, b, ticked@, i as nat),
        decreases candidates.len() - i,
    {
        let held = holds(base, candidates[i].as_str());
        proof {
            c.take(i as int).lemma_filter_push(c[i as int], outside(b));
            assert(c.take(i + 1) =~= c.take(i as int).push(c[i as int]));
        }
        if !held {
            if is_ticked(ticked, i) {
                let ghost before = trials.deep_view();
                let trial = Trial {
                    bin: candidates[i].clone(),
                    side: Side::Candidate,
                    fresh: true,
                    slot,
                };
                trials.push(trial);
                assert(trials.deep_view() =~= before.push(trial@));
            }
            slot = slot + 1;
        }
        i = i + 1;
    }
    let ghost added = trials.deep_view();
    let mut slot: usize = 0;
    let mut i: usize = 0;
    assert(trials.deep_view() =~= added + Seq::<TrialView>::empty());
    while i < candidates.len()
        invariant
            i <= candidates.len(),
            c == candidates.deep_view(),
            b == base.deep_view(),
            slot == c.take(i as int).filter(within(b)).len(),
            slot <= i,
            trials.deep_view() == added + updated_trials(c, b, ticked@, i as nat),
        decreases candidates.len() - i,
    {
        let held = holds(base, candidates[i].as_str());
        proof {
            c.take(i as int).lemma_filter_push(c[i as int], within(b));
            assert(c.take(i + 1) =~= c.take(i as int).push(c[i as int]));
        }
        if held {
            if is_ticked(ticked, i) {
                let ghost before = trials.deep_view();
                let first = Trial {
                    bin: candidates[i].clone(),
                    side: Side::Base,
                    fresh: false,
                    slot,
                };
                let second = Trial {
                    bin: candidates[i].clone(),
                    side: Side::Candidate,
                    fresh: false,
                    slot,
                };
                trials.push(first);
                trials.push(second);
                assert(trials.deep_view() =~= before.push(first@).push(second@));
                assert(before.push(first@).push(second@) =~= added + updated_trials(
                    c,
                    b,
                    ticked@,
                    i as nat,
                ).push(first@).push(second@));
            }
            slot = slot + 1;
        }
        i = i + 1;
    }
    trials
}

fn unrun(names: Vec<String>) -> (entries: Vec<Added>)
    ensures
        entries.deep_view() == names.deep_view().map_values(not_run()),
{
    let mut entries: Vec<Added> = Vec::new();
    let mut i: usize = 0;
    while i < names.len()
        invariant
            i <= names.len(),
            entries@.len() == i,
            forall|j: int|
                0 <= j < i ==> (#[trigger] entries@[j]).deep_view() == not_run()(
                    names.deep_view()[j],
                ),
        decreases names.len() - i,
    {
        entries.push((names[i].clone(), Verdict::NotRun));
        i = i + 1;
    }
    assert(entries.deep_view() =~= names.deep_view().map_values(not_run()));
    entries
}

fn unrun_twice(names: Vec<String>) -> (entries: Vec<Updated>)
    ensures
        entries.deep_view() == names.deep_view().map_values(not_run_twice()),
{
    let mut entries: Vec<Updated> = Vec::new();
    let mut i: usize = 0;
    while i < names.len()
        invariant
            i <= names.len(),
            entries@.len() == i,
            forall|j: int|
                0 <= j < i ==> (#[trigger] entries@[j]).deep_view() == not_run_twice()(
                    names.deep_view()[j],
                ),
        decreases names.len() - i,
    {
        entries.push((names[i].clone(), Verdict::NotRun, Verdict::NotRun));
        i = i + 1;
    }
    assert(entries.deep_view() =~= names.deep_view().map_values(not_run_twice()));
    entries
}

fn suggested(attempt: usize) -> (initial: Option<String>)
    ensures
        initial.deep_view() == suggestion(attempt as nat),
{
    if attempt == 0 {
        Some(String::from_str("--version"))
    } else if attempt == 1 {
        Some(String::from_str("--help"))
    } else if attempt == 2 {
        Some(String::from_str("-h"))
    } else if attempt == 3 {
        Some(String::from_str("-V"))
    } else {
        None
    }
}

fn as_arguments(pieces: Vec<String>) -> (args: Vec<Arg>)
    ensures
        args.deep_view() == pieces.deep_view().map_values(as_text()),
{
    let mut args: Vec<Arg> = Vec::new();
    let mut i: usize = 0;
    while i < pieces.len()
        invariant
            i <= pieces.len(),
            args@.len() == i,
            forall|j: int|
                0 <= j < i ==> (#[trigger] args@[j])@ == ArgView::Text(pieces.deep_view()[j]),
        decreases pieces.len() - i,
    {
        args.push(Arg::Text(pieces[i].clone()));
        i = i + 1;
    }
    assert(args.deep_view() =~= pieces.deep_view().map_values(as_text()));
    args
}

impl Chk {
    #[verifier::type_invariant]
    closed spec fn sound(&self) -> bool {
        self@.unique()
    }

    /// A check that will try the binaries of `pkg`, whose builds are linked below `outs_dir`.
    pub fn new(pkg: String, outs_dir: String) -> (check: Chk)
        ensures
            check@ == ChkView::fresh(pkg@, outs_dir@),
            check@.unique(),
    {
        proof {
            lemma_fresh_is_unique(pkg@, outs_dir@);
        }
        let check = Chk {
            pkg,
            outs_dir,
            survey: Survey::NotAttempted,
            new_bins: Vec::new(),
            updated_bins: Vec::new(),
            removed_bins: Vec::new(),
            stage: Stage::Idle,
            base_bins: Vec::new(),
            candidates: Vec::new(),
            trials: Vec::new(),
            next: 0,
            attempt: 0,
        };
        assert(check.new_bins.deep_view() =~= Seq::<AddedView>::empty());
        assert(check.updated_bins.deep_view() =~= Seq::<UpdatedView>::empty());
        assert(check.removed_bins.deep_view() =~= Seq::<Seq<char>>::empty());
        assert(check.base_bins.deep_view() =~= Seq::<Seq<char>>::empty());
        assert(check.candidates.deep_view() =~= Seq::<Seq<char>>::empty());
        assert(check.trials.deep_view() =~= Seq::<TrialView>::empty());
        check
    }

    fn bin_dir(&self, side: Side) -> (dir: Location)
        ensures
            dir@ == self@.bin_dir(side),
    {
        Location::at(self.outs_dir.as_str()).below(side.label()).below("bin")
    }

    fn listing_context(&self, side: Side) -> (text: String)
        ensures
            text@ == self@.listing_context(side),
    {
        let mut text = String::from_str("listing the ");
        text.append(side.label());
        text.append(" binaries for ");
        text.append(self.pkg.as_str());
        text
    }

    fn asking(&self, trial: &Trial) -> (request: Request)
        ensures
            request@ == self@.asking(trial@),
    {
        let mut prompt = String::from_str("what arguments should we pass to the ");
        prompt.append(trial.side.label());
        prompt.append(" version of ");
        prompt.append(trial.bin.as_str());
        prompt.append(" in package ");
        prompt.append(self.pkg.as_str());
        prompt.append("?");
        Request::Ask { prompt, initial: suggested(self.attempt) }
    }

    fn judging() -> (request: Request)
        ensures
            request@ == ChkView::judging(),
    {
        let mut items: Vec<String> = Vec::new();
        items.push(String::from_str("Yes"));
        items.push(String::from_str("No"));
        items.push(String::from_str("Try again with other arguments"));
        assert(items.deep_view() =~= seq!["Yes"@, "No"@, "Try again with other arguments"@]);
        Request::Pick { prompt: String::from_str("did the binary work?"), items, preselected: 2 }
    }

    fn reset(&mut self)
        ensures
            final(self)@ == old(self)@.idle(),
    {
        proof {
            use_type_invariant(&*self);
        }
        self.stage = Stage::Idle;
        self.base_bins = Vec::new();
        self.candidates = Vec::new();
        self.trials = Vec::new();
        self.next = 0;
        self.attempt = 0;
        assert(self.base_bins.deep_view() =~= Seq::<Seq<char>>::empty());
        assert(self.candidates.deep_view() =~= Seq::<Seq<char>>::empty());
        assert(self.trials.deep_view() =~= Seq::<TrialView>::empty());
    }

    fn plan(&mut self, ticked: &Vec<usize>)
        ensures
            final(self)@ == old(self)@.planned(ticked@),
    {
        proof {
            use_type_invariant(&*self);
            lemma_plan_is_unique(self@, ticked@);
        }
        let removed = sift(&self.base_bins, &self.candidates, false);
        let added = unrun(sift(&self.candidates, &self.base_bins, false));
        let updated = unrun_twice(sift(&self.candidates, &self.base_bins, true));
        let trials = lay_out(&self.candidates, &self.base_bins, ticked);
        self.survey = Survey::Done;
        self.removed_bins = removed;
        self.new_bins = added;
        self.updated_bins = updated;
        self.trials = trials;
        self.next = 0;
        self.attempt = 0;
    }

    fn proceed(&mut self) -> (step: Step)
        ensures
            final(self)@ == old(self)@.proceed().0,
            step_view(step) == old(self)@.proceed().1,
    {
        proof {
            use_type_invariant(&*self);
        }
        if self.next < self.trials.len() {
            let request = self.asking(&self.trials[self.next]);
            self.stage = Stage::Asking;
            Ok(Some(request))
        } else {
            self.reset();
            Ok(None)
        }
    }

    fn judge(&mut self, worked: Verdict)
        requires
            old(self)@.next < old(self)@.trials.len(),
        ensures
            final(self)@ == old(self)@.judged(worked),
    {
        proof {
            use_type_invariant(&*self);
        }
        assert(self@.trials.len() == self.trials.len());
        let done: usize = self.next + 1;
        let slot = self.trials[self.next].slot;
        if self.trials[self.next].fresh {
            if slot < self.new_bins.len() {
                let mut bins: Vec<Added> = Vec::new();
                assert(added_names(bins.deep_view()) =~= Seq::<Seq<char>>::empty());
                std::mem::swap(&mut bins, &mut self.new_bins);
                let ghost before = bins.deep_view();
                let name = bins[slot].0.clone();
                bins[slot] = (name, worked);
                assert(bins.deep_view() =~= before.update(
                    slot as int,
                    (before[slot as int].0, worked),
                ));
                assert(added_names(bins.deep_view()) =~= added_names(before));
                self.new_bins = bins;
            }
        } else {
            if slot < self.updated_bins.len() {
                let side = self.trials[self.next].side;
                let mut bins: Vec<Updated> = Vec::new();
                assert(updated_names(bins.deep_view()) =~= Seq::<Seq<char>>::empty());
                std::mem::swap(&mut bins, &mut self.updated_bins);
                let ghost before = bins.deep_view();
                let name = bins[slot].0.clone();
                let entry = match side {
                    Side::Base => (name, worked, bins[slot].2),
                    Side::Candidate => (name, bins[slot].1, worked),
                };
                bins[slot] = entry;
                assert(bins.deep_view() =~= before.update(slot as int, entry.deep_view()));
                assert(updated_names(bins.deep_view()) =~= updated_names(before));
                self.updated_bins = bins;
            }
        }
        self.next = done;
        self.attempt = 0;
    }

    /// One step of the run on `side`.
    pub fn run_on(&mut self, side: Side, reply: Reply) -> (step: Step)
        ensures
            final(self)@ == old(self)@.run_on(side, reply@).0,
            step_view(step) == old(self)@.run_on(side, reply@).1,
            final(self)@.unique(),
    {
        proof {
            use_type_invariant(&*self);
            lemma_run_keeps_unique(self@, side, reply@);
        }
        let at_hand = self.next < self.trials.len();
        match (self.stage, reply) {
            (Stage::Idle, Reply::Start) => match side {
                Side::Base => Ok(None),
                Side::Candidate => {
                    let dir = self.bin_dir(Side::Base);
                    self.stage = Stage::ListingBase;
                    Ok(Some(Request::List { dir, optional: true }))
                },
            },
            (Stage::ListingBase, Reply::Listed(None)) => {
                self.survey = Survey::NoBaseBinaries;
                self.reset();
                Ok(None)
            },
            (Stage::ListingBase, Reply::Listed(Some(entries))) => match names_of(entries) {
                None => {
                    let failure = unreadable(Side::Base);
                    self.reset();
                    Err(failure)
                },
                Some(names) => {
                    let dir = self.bin_dir(Side::Candidate);
                    proof {
                        crate::text::lemma_distinct(names.deep_view().filter(plain()));
                    }
                    self.base_bins = binaries_among(&names);
                    self.stage = Stage::ListingCandidate;
                    Ok(Some(Request::List { dir, optional: false }))
                },
            },
            (Stage::ListingBase, Reply::Failed(failure)) => {
                let context = self.listing_context(Side::Base);
                self.reset();
                Err(failure.context(context))
            },
            (Stage::ListingCandidate, Reply::Listed(Some(entries))) => match names_of(entries) {
                None => {
                    let failure = unreadable(Side::Candidate);
                    self.reset();
                    Err(failure)
                },
                Some(names) => {
                    proof {
                        crate::text::lemma_distinct(names.deep_view().filter(plain()));
                    }
                    self.candidates = binaries_among(&names);
                    self.stage = Stage::Choosing;
                    let prompt = cat3(
                        "which binaries of package ",
                        self.pkg.as_str(),
                        " do you want to run?",
                    );
                    Ok(
                        Some(
                            Request::Choose {
                                prompt,
                                items: crate::text::copy_all(&self.candidates),
                                all_ticked: false,
                            },
                        ),
                    )
                },
            },
            (Stage::ListingCandidate, Reply::Failed(failure)) => {
                let context = self.listing_context(Side::Candidate);
                self.reset();
                Err(failure.context(context))
            },
            (Stage::Choosing, Reply::Chosen(ticked)) => {
                self.plan(&ticked);
                self.proceed()
            },
            (Stage::Choosing, Reply::Failed(failure)) => {
                self.reset();
                Err(
                    failure.context(
                        String::from_str("asking the user which binaries they want to run"),
                    ),
                )
            },
            (Stage::Asking, Reply::Answered(line)) => {
                if at_hand {
                    let program = self.bin_dir(self.trials[self.next].side).below(
                        self.trials[self.next].bin.as_str(),
                    );
                    let args = as_arguments(split(line.as_str(), ' '));
                    self.stage = Stage::Running;
                    Ok(Some(Request::Run { capture_stdout: false, program, args }))
                } else {
                    Err(out_of_turn())
                }
            },
            (Stage::Asking, Reply::Failed(failure)) => {
                self.reset();
                Err(failure.context(String::from_str("asking the user what parameters to pass")))
            },
            (Stage::Running, Reply::Ran(None)) => {
                if at_hand {
                    self.judge(Verdict::Interrupted);
                    self.proceed()
                } else {
                    Err(out_of_turn())
                }
            },
            (Stage::Running, Reply::Ran(Some(_))) => {
                self.stage = Stage::Judging;
                Ok(Some(Chk::judging()))
            },
            (Stage::Running, Reply::Failed(failure)) => {
                if at_hand {
                    let mut context = String::from_str("running binary ");
                    context.append(self.trials[self.next].bin.as_str());
                    context.append(" of package ");
                    context.append(self.pkg.as_str());
                    self.reset();
                    Err(failure.context(context))
                } else {
                    Err(out_of_turn())
                }
            },
            (Stage::Judging, Reply::Picked(position)) => {
                if !at_hand {
                    Err(out_of_turn())
                } else if position == 0 {
                    self.judge(Verdict::Worked);
                    self.proceed()
                } else if position == 1 {
                    self.judge(Verdict::Failed);
                    self.proceed()
                } else {
                    if self.attempt < 4 {
                        self.attempt = self.attempt + 1;
                    }
                    self.proceed()
                }
            },
            (Stage::Judging, Reply::Failed(failure)) => {
                self.reset();
                Err(
                    failure.context(String::from_str("asking the user whether the binary worked")),
                )
            },
            _ => Err(out_of_turn()),
        }
    }
}

fn removed_shown(names: &Vec<String>) -> (texts: Vec<String>)
    ensures
        texts.deep_view() == names.deep_view().map_values(shown()),
{
    let mut texts: Vec<String> = Vec::new();
    let mut i: usize = 0;
    while i < names.len()
        invariant
            i <= names.len(),
            texts@.len() == i,
            forall|j: int| 0 <= j < i ==> texts@[j]@ == debug_text(names.deep_view()[j]),
        decreases names.len() - i,
    {
        texts.push(quoted(names[i].as_str()));
        i = i + 1;
    }
    assert(texts.deep_view() =~= names.deep_view().map_values(shown()));
    texts
}

fn added_shown(entries: &Vec<Added>) -> (lines: Vec<String>)
    ensures
        lines.deep_view() == entries.deep_view().map_values(added_line()),
{
    let mut lines: Vec<String> = Vec::new();
    let mut i: usize = 0;
    while i < entries.len()
        invariant
            i <= entries.len(),
            lines@.len() == i,
            forall|j: int| 0 <= j < i ==> lines@[j]@ == added_line()(entries.deep_view()[j]),
        decreases entries.len() - i,
    {
        let name = entries[i].0.as_str();
        let line = match entries[i].1 {
            Verdict::NotRun => cat3("    * 😢 ", name, " was not run\n"),
            Verdict::Interrupted => cat3("    * 😢 ", name, " was interrupted\n"),
            Verdict::Worked => cat3("    * ✔ ", name, " was run successfully\n"),
            Verdict::Failed => cat3("    * 😢 ", name, " was run unsuccessfully\n"),
        };
        lines.push(line);
        i = i + 1;
    }
    assert(lines.deep_view() =~= entries.deep_view().map_values(added_line()));
    lines
}

fn updated_shown(entries: &Vec<Updated>) -> (lines: Vec<String>)
    ensures
        lines.deep_view() == entries.deep_view().map_values(updated_line()),
{
    let mut lines: Vec<String> = Vec::new();
    let mut i: usize = 0;
    while i < entries.len()
        invariant
            i <= entries.len(),
            lines@.len() == i,
            forall|j: int| 0 <= j < i ==> lines@[j]@ == updated_line()(entries.deep_view()[j]),
        decreases entries.len() - i,
    {
        let name = entries[i].0.as_str();
        let line = match (entries[i].1, entries[i].2) {
            (Verdict::Worked, Verdict::Worked) => cat3(
                "    * ✔ ",
                name,
                " continued running successfully\n",
            ),
            (Verdict::Worked, Verdict::Failed) => cat3("    * ❌ ", name, " started failing\n"),
            (Verdict::Failed, Verdict::Worked) => cat3(
                "    * 💚 ",
                name,
                " started running successfully again\n",
            ),
            (Verdict::Failed, Verdict::Failed) => cat3("    * 😢 ", name, " still fails\n"),
            (Verdict::Interrupted, _) => cat3("    * 😢 ", name, " was interrupted\n"),
            (_, Verdict::Interrupted) => cat3("    * 😢 ", name, " was interrupted\n"),
            _ => cat3("    * 😢 ", name, " was not run\n"),
        };
        lines.push(line);
        i = i + 1;
    }
    assert(lines.deep_view() =~= entries.deep_view().map_values(updated_line()));
    lines
}

impl Check for Chk {
    open spec fn identity(&self) -> Seq<char> {
        self@.identity()
    }

    open spec fn title(&self) -> Seq<char> {
        self@.title()
    }

    open spec fn discoveries(&self) -> Seq<AnyCheckView> {
        self@.found()
    }

    open spec fn reports(&self, text: Seq<char>) -> bool {
        text =~= self@.report()
    }

    fn uuid(&self) -> (id: CheckId) {
        CheckId::from_uuid_param(KIND, self.pkg.as_str())
    }

    fn name(&self) -> (name: String) {
        cat3("run-binaries(", self.pkg.as_str(), ")")
    }

    fn run_before(&mut self, reply: Reply) -> (step: Step)
        ensures
            final(self)@ == old(self)@.run_on(Side::Base, reply@).0,
            step_view(step) == old(self)@.run_on(Side::Base, reply@).1,
    {
        self.run_on(Side::Base, reply)
    }

    fn run_after(&mut self, reply: Reply) -> (step: Step)
        ensures
            final(self)@ == old(self)@.run_on(Side::Candidate, reply@).0,
            step_view(step) == old(self)@.run_on(Side::Candidate, reply@).1,
    {
        self.run_on(Side::Candidate, reply)
    }

    fn additional_needed_tests(&self) -> (found: Result<Vec<AnyCheck>, Failure>)
        ensures
            found is Ok,
    {
        let found: Vec<AnyCheck> = Vec::new();
        assert(found.deep_view() =~= Seq::<AnyCheckView>::empty());
        Ok(found)
    }

    fn report(&self) -> (text: String) {
        match self.survey {
            Survey::NotAttempted => {
                return cat3(
                    "**binaries of ",
                    self.pkg.as_str(),
                    ":** 😢 binaries were not attempted",
                );
            },
            Survey::NoBaseBinaries => {
                return cat3(
                    "**binaries of ",
                    self.pkg.as_str(),
                    ":** 😢 binaries were not attempted: the base build has none",
                );
            },
            Survey::Done => {},
        }
        if self.new_bins.len() == 0 && self.updated_bins.len() == 0 && self.removed_bins.len()
            == 0 {
            return cat3("**binaries of ", self.pkg.as_str(), ":** 😢 there are no binaries");
        }
        let mut text = cat3("**binaries of ", self.pkg.as_str(), ":**\n");
        if self.removed_bins.len() > 0 {
            text.append("  * *removed binaries:* 😢 {");
            text.append(join(&removed_shown(&self.removed_bins), ", ").as_str());
            text.append("}\n");
        }
        if self.new_bins.len() > 0 {
            text.append("  * *added binaries:*\n");
            text.append(glue(&added_shown(&self.new_bins)).as_str());
            text.append("\n");
        }
        if self.updated_bins.len() > 0 {
            text.append("  * *updated binaries:*\n");
            text.append(glue(&updated_shown(&self.updated_bins)).as_str());
            text.append("\n");
        }
        text
    }
}

} // verus!
