//! Has the operator read the contribution guidelines where they changed, and asks whether
//! the change respects them.

use crate::checks::{AnyCheck, AnyCheckView, Check};
use crate::exchange::{
    out_of_turn, out_of_turn_text, Reply, ReplyView, Request, RequestView, Side, Step, StepView,
    Tone, step_view,
};
use crate::failure::{Failure, FailureView};
use crate::identity::{plain_identity, CheckId};
use crate::state::State;
use crate::text::{cat2, same_text};
use vstd::prelude::*;
use vstd::string::StringExecFns;

verus! {

/// The kind of this check.
pub const KIND: u128 = 0x5281f549224719a2b6104c3a5fbc9c12;

/// Where a line of a comparison comes from.
#[derive(Clone, Copy, PartialEq, Eq, Structural, Debug)]
pub enum Origin {
    /// Only the old text has the line.
    Old,
    /// Only the new text has the line.
    New,
    /// Both texts have the line.
    Both,
}

impl DeepView for Origin {
    type V = Origin;

    open spec fn deep_view(&self) -> Origin {
        *self
    }
}

/// One line of a comparison of two texts.
pub type Change = (Origin, String);

/// One line of a comparison, as a mathematical value.
pub type ChangeView = (Origin, Seq<char>);

/// The line-by-line comparison that `diff::lines` makes of two texts.
pub uninterp spec fn diff_lines(old: Seq<char>, new: Seq<char>) -> Seq<ChangeView>;

/// Calls `diff::lines`. Trusted: the comparison depends on the two texts alone, and is the
/// one that `diff_lines` names; of a line that both texts have, the old text's copy is kept.
#[verifier::external_body]
fn compare(old: &str, new: &str) -> (changes: Vec<Change>)
    ensures
        changes.deep_view() == diff_lines(old@, new@),
{
    diff::lines(old, new).into_iter().map(
        |change|
            match change {
                diff::Result::Left(line) => (Origin::Old, line.to_string()),
                diff::Result::Right(line) => (Origin::New, line.to_string()),
                diff::Result::Both(line, _) => (Origin::Both, line.to_string()),
            },
    ).collect()
}

/// A line as it is shown to the operator.
pub type Shown = (Tone, String);

/// A line as it is shown, as a mathematical value.
pub type ShownView = (Tone, Seq<char>);

impl DeepView for Tone {
    type V = Tone;

    open spec fn deep_view(&self) -> Tone {
        *self
    }
}

/// How a line of the comparison is shown.
pub open spec fn shown() -> spec_fn(ChangeView) -> ShownView {
    |change: ChangeView|
        match change.0 {
            Origin::Old => (Tone::Removed, "-"@ + change.1),
            Origin::New => (Tone::Added, "+"@ + change.1),
            Origin::Both => (Tone::Plain, " "@ + change.1),
        }
}

/// The line that sets the comparison off from what surrounds it.
pub open spec fn rule() -> ShownView {
    (Tone::Plain, "--------------------"@)
}

/// What the operator is shown of the change from `old` to `new` guidelines.
pub open spec fn notice(old: Seq<char>, new: Seq<char>) -> Seq<ShownView> {
    seq![(Tone::Strong, "CONTRIBUTING.md changed since you last read it"@), rule()]
        + diff_lines(old, new).map_values(shown()) + seq![rule()]
}

/// Where the questions to the operator stand.
#[derive(Clone, Copy, PartialEq, Eq, Structural, Debug)]
pub enum Stage {
    /// Nothing was asked yet.
    Fresh,
    /// The changes to the guidelines are being shown.
    Showing,
    /// The operator is asked whether they read the changes.
    Reading,
    /// The operator is being told to read the changes.
    Insisting,
    /// The operator is asked whether the change respects the guidelines.
    Confirming,
    /// All is answered.
    Settled,
}

/// The word of the operator that the change respects the contribution guidelines.
pub struct Chk {
    confirmed: bool,
    last: Option<String>,
    current: String,
    stage: Stage,
    lines: Vec<Shown>,
    next: usize,
}

/// The check as a mathematical value.
pub struct ChkView {
    /// Whether the operator says that the change respects the guidelines.
    pub confirmed: bool,
    /// The guidelines as the operator last read them.
    pub last: Option<Seq<char>>,
    /// The guidelines as they are now.
    pub current: Seq<char>,
    pub stage: Stage,
    /// The lines that are being shown.
    pub lines: Seq<ShownView>,
    /// How many of them were shown.
    pub next: nat,
}

impl ChkView {
    /// The check as it is made, before anything was asked or run.
    pub open spec fn fresh(last: Option<Seq<char>>, current: Seq<char>) -> ChkView {
        ChkView {
            confirmed: false,
            last,
            current,
            stage: Stage::Fresh,
            lines: Seq::empty(),
            next: 0,
        }
    }

    /// The identity of the check.
    pub open spec fn identity(self) -> Seq<char> {
        plain_identity(KIND)
    }

    /// The name under which the operator knows the check.
    pub open spec fn title(self) -> Seq<char> {
        "confirm-contributing"@
    }

    /// Whether the guidelines are the ones that the operator last read.
    pub open spec fn up_to_date(self) -> bool {
        self.last == Some(self.current)
    }

    /// The question whether the operator read the changes.
    pub open spec fn reading() -> RequestView {
        RequestView::Confirm { prompt: "did you read the changes?"@ }
    }

    /// What the operator is told when they did not read the changes.
    pub open spec fn insisting() -> RequestView {
        RequestView::Say {
            line: "please read the changes to CONTRIBUTING.md to proceed"@,
            tone: Tone::Plain,
        }
    }

    /// The question whether the change respects the guidelines.
    pub open spec fn confirming() -> RequestView {
        RequestView::Confirm { prompt: "do the changes respect the rules of CONTRIBUTING.md?"@ }
    }

    /// What comes after the lines in front of `next` are shown.
    pub open spec fn proceed(self) -> (ChkView, StepView) {
        if self.next < self.lines.len() {
            (
                ChkView { stage: Stage::Showing, next: self.next + 1, ..self },
                Ok(
                    Some(
                        RequestView::Say {
                            line: self.lines[self.next as int].1,
                            tone: self.lines[self.next as int].0,
                        },
                    ),
                ),
            )
        } else {
            (
                ChkView { stage: Stage::Reading, lines: Seq::empty(), next: 0, ..self },
                Ok(Some(Self::reading())),
            )
        }
    }

    /// One step of the questions to the operator. Where the guidelines changed since the
    /// operator read them, the changes are shown and the operator is held until they say
    /// that they read them.
    pub open spec fn setup(self, reply: ReplyView) -> (ChkView, StepView) {
        match (self.stage, reply) {
            (Stage::Fresh, ReplyView::Start) => if self.up_to_date() {
                (ChkView { stage: Stage::Confirming, ..self }, Ok(Some(Self::confirming())))
            } else {
                ChkView {
                    lines: notice(
                        match self.last {
                            Some(text) => text,
                            None => Seq::empty(),
                        },
                        self.current,
                    ),
                    next: 0,
                    ..self
                }.proceed()
            },
            (Stage::Showing, ReplyView::Said) => self.proceed(),
            (Stage::Reading, ReplyView::Confirmed(yes)) => if yes {
                (
                    ChkView { last: Some(self.current), stage: Stage::Confirming, ..self },
                    Ok(Some(Self::confirming())),
                )
            } else {
                (ChkView { stage: Stage::Insisting, ..self }, Ok(Some(Self::insisting())))
            },
            (Stage::Insisting, ReplyView::Said) => (
                ChkView { stage: Stage::Reading, ..self },
                Ok(Some(Self::reading())),
            ),
            (Stage::Confirming, ReplyView::Confirmed(yes)) => (
                ChkView { confirmed: yes, stage: Stage::Settled, ..self },
                Ok(None),
            ),
            (Stage::Reading, ReplyView::Failed(failure)) => (
                self,
                Err(failure.within("asking the user for reading the contributing.md changes"@)),
            ),
            (Stage::Confirming, ReplyView::Failed(failure)) => (
                self,
                Err(
                    failure.within(
                        "asking the user whether the changes respect CONTRIBUTING.md"@,
                    ),
                ),
            ),
            (Stage::Showing, ReplyView::Failed(failure)) => (self, Err(failure)),
            (Stage::Insisting, ReplyView::Failed(failure)) => (self, Err(failure)),
            _ => (self, Err(FailureView::bare(out_of_turn_text()))),
        }
    }

    /// There is nothing to do on either side.
    pub open spec fn run_on(self, side: Side, reply: ReplyView) -> (ChkView, StepView) {
        match reply {
            ReplyView::Start => (self, Ok(None)),
            _ => (self, Err(FailureView::bare(out_of_turn_text()))),
        }
    }

    /// This check never calls for further checks.
    pub open spec fn found(self) -> Seq<AnyCheckView> {
        Seq::empty()
    }

    /// The paragraph of the check in the report. As long as the operator has not answered,
    /// it says that they were not asked.
    pub open spec fn report(self) -> Seq<char> {
        if self.stage != Stage::Settled {
            "**complies with contributing.md:** 😢 the operator was not asked"@
        } else if self.confirmed {
            "**complies with contributing.md:** ✔ yes"@
        } else {
            "**complies with contributing.md:** 😢 no"@
        }
    }
}

impl View for Chk {
    type V = ChkView;

    closed spec fn view(&self) -> ChkView {
        ChkView {
            confirmed: self.confirmed,
            last: self.last.deep_view(),
            current: self.current@,
            stage: self.stage,
            lines: self.lines.deep_view(),
            next: self.next as nat,
        }
    }
}

/// What the operator is shown of the change from `old` to `new` guidelines.
fn notice_of(old: &str, new: &str) -> (lines: Vec<Shown>)
    ensures
        lines.deep_view() == notice(old@, new@),
{
    let changes = compare(old, new);
    let mut lines: Vec<Shown> = Vec::new();
    lines.push((Tone::Strong, String::from_str("CONTRIBUTING.md changed since you last read it")));
    lines.push((Tone::Plain, String::from_str("--------------------")));
    let ghost head = lines.deep_view();
    assert(head =~= seq![
        (Tone::Strong, "CONTRIBUTING.md changed since you last read it"@),
        rule(),
    ]);
    let mut i: usize = 0;
    while i < changes.len()
        invariant
            i <= changes.len(),
            lines.deep_view() == head + changes.deep_view().take(i as int).map_values(shown()),
        decreases changes.len() - i,
    {
        let line = match changes[i].0 {
            Origin::Old => (Tone::Removed, cat2("-", changes[i].1.as_str())),
            Origin::New => (Tone::Added, cat2("+", changes[i].1.as_str())),
            Origin::Both => (Tone::Plain, cat2(" ", changes[i].1.as_str())),
        };
        let ghost before = lines.deep_view();
        lines.push(line);
        proof {
            let done = changes.deep_view().take(i as int);
            assert(changes.deep_view().take(i + 1) =~= done.push(changes.deep_view()[i as int]));
            assert(lines.deep_view() =~= before.push(shown()(changes.deep_view()[i as int])));
            assert(before.push(shown()(changes.deep_view()[i as int])) =~= head + done.push(
                changes.deep_view()[i as int],
            ).map_values(shown()));
        }
        i = i + 1;
    }
    assert(changes.deep_view().take(changes.len() as int) =~= changes.deep_view());
    let ghost before = lines.deep_view();
    lines.push((Tone::Plain, String::from_str("--------------------")));
    assert(lines.deep_view() =~= before + seq![rule()]);
    lines
}

impl Chk {
    /// A check that holds the guidelines `current` against what `state` remembers.
    pub fn new(state: &State, current: String) -> (check: Chk)
        ensures
            check@ == ChkView::fresh(state@, current@),
    {
        let last = match &state.last_contributing {
            Some(text) => Some(text.clone()),
            None => None,
        };
        let check = Chk {
            confirmed: false,
            last,
            current,
            stage: Stage::Fresh,
            lines: Vec::new(),
            next: 0,
        };
        assert(check.lines.deep_view() =~= Seq::<ShownView>::empty());
        check
    }

    /// Whether the operator says that the change respects the guidelines.
    pub fn confirmed(&self) -> (yes: bool)
        ensures
            yes == self@.confirmed,
    {
        self.confirmed
    }

    /// Hands to `state` what the operator has read by now.
    pub fn remember(&self, state: &mut State)
        ensures
            final(state)@ == self@.last,
    {
        state.last_contributing = match &self.last {
            Some(text) => Some(text.clone()),
            None => None,
        };
    }

    fn up_to_date(&self) -> (yes: bool)
        ensures
            yes == self@.up_to_date(),
    {
        match &self.last {
            Some(text) => same_text(text.as_str(), self.current.as_str()),
            None => false,
        }
    }

    fn reading() -> (request: Request)
        ensures
            request@ == ChkView::reading(),
    {
        Request::Confirm { prompt: String::from_str("did you read the changes?") }
    }

    fn confirming() -> (request: Request)
        ensures
            request@ == ChkView::confirming(),
    {
        Request::Confirm {
            prompt: String::from_str("do the changes respect the rules of CONTRIBUTING.md?"),
        }
    }

    fn proceed(&mut self) -> (step: Step)
        ensures
            final(self)@ == old(self)@.proceed().0,
            step_view(step) == old(self)@.proceed().1,
    {
        if self.next < self.lines.len() {
            let line = self.lines[self.next].1.clone();
            let tone = self.lines[self.next].0;
            self.stage = Stage::Showing;
            self.next = self.next + 1;
            Ok(Some(Request::Say { line, tone }))
        } else {
            self.stage = Stage::Reading;
            self.lines = Vec::new();
            self.next = 0;
            assert(self.lines.deep_view() =~= Seq::<ShownView>::empty());
            Ok(Some(Chk::reading()))
        }
    }

    /// One step of the questions to the operator.
    pub fn setup(&mut self, reply: Reply) -> (step: Step)
        ensures
            final(self)@ == old(self)@.setup(reply@).0,
            step_view(step) == old(self)@.setup(reply@).1,
    {
        match (self.stage, reply) {
            (Stage::Fresh, Reply::Start) => {
                if self.up_to_date() {
                    self.stage = Stage::Confirming;
                    Ok(Some(Chk::confirming()))
                } else {
                    self.lines = match &self.last {
                        Some(text) => notice_of(text.as_str(), self.current.as_str()),
                        None => {
                            let nothing = String::new();
                            notice_of(nothing.as_str(), self.current.as_str())
                        },
                    };
                    self.next = 0;
                    self.proceed()
                }
            },
            (Stage::Showing, Reply::Said) => self.proceed(),
            (Stage::Reading, Reply::Confirmed(yes)) => {
                if yes {
                    self.last = Some(self.current.clone());
                    self.stage = Stage::Confirming;
                    Ok(Some(Chk::confirming()))
                } else {
                    self.stage = Stage::Insisting;
                    Ok(
                        Some(
                            Request::Say {
                                line: String::from_str(
                                    "please read the changes to CONTRIBUTING.md to proceed",
                                ),
                                tone: Tone::Plain,
                            },
                        ),
                    )
                }
            },
            (Stage::Insisting, Reply::Said) => {
                self.stage = Stage::Reading;
                Ok(Some(Chk::reading()))
            },
            (Stage::Confirming, Reply::Confirmed(yes)) => {
                self.confirmed = yes;
                self.stage = Stage::Settled;
                Ok(None)
            },
            (Stage::Reading, Reply::Failed(failure)) => Err(
                failure.context(
                    String::from_str("asking the user for reading the contributing.md changes"),
                ),
            ),
            (Stage::Confirming, Reply::Failed(failure)) => Err(
                failure.context(
                    String::from_str(
                        "asking the user whether the changes respect CONTRIBUTING.md",
                    ),
                ),
            ),
            (Stage::Showing, Reply::Failed(failure)) => Err(failure),
            (Stage::Insisting, Reply::Failed(failure)) => Err(failure),
            _ => Err(out_of_turn()),
        }
    }

    /// One step of the run on `side`.
    pub fn run_on(&mut self, side: Side, reply: Reply) -> (step: Step)
        ensures
            final(self)@ == old(self)@.run_on(side, reply@).0,
            step_view(step) == old(self)@.run_on(side, reply@).1,
    {
        match reply {
            Reply::Start => Ok(None),
            _ => Err(out_of_turn()),
        }
    }
}

impl Check for Chk {
    open spec fn identity(&self) -> Seq<char> {
        self@.identity()
    }

    open spec fn title(&self) -> Seq<char> {
        self@.title()
    }

    open spec fn discoveries(&self) -> Seq<AnyCheckView> {
        self@.found()
    }

    open spec fn reports(&self, text: Seq<char>) -> bool {
        text =~= self@.report()
    }

    fn uuid(&self) -> (id: CheckId) {
        CheckId::from_uuid(KIND)
    }

    fn name(&self) -> (name: String) {
        String::from_str("confirm-contributing")
    }

    fn run_before(&mut self, reply: Reply) -> (step: Step)
        ensures
            final(self)@ == old(self)@.run_on(Side::Base, reply@).0,
            step_view(step) == old(self)@.run_on(Side::Base, reply@).1,
    {
        self.run_on(Side::Base, reply)
    }

    fn run_after(&mut self, reply: Reply) -> (step: Step)
        ensures
            final(self)@ == old(self)@.run_on(Side::Candidate, reply@).0,
            step_view(step) == old(self)@.run_on(Side::Candidate, reply@).1,
    {
        self.run_on(Side::Candidate, reply)
    }

    fn additional_needed_tests(&self) -> (found: Result<Vec<AnyCheck>, Failure>)
        ensures
            found is Ok,
    {
        let found: Vec<AnyCheck> = Vec::new();
        assert(found.deep_view() =~= Seq::<AnyCheckView>::empty());
        Ok(found)
    }

    fn report(&self) -> (text: String) {
        if self.stage != Stage::Settled {
            String::from_str("**complies with contributing.md:** 😢 the operator was not asked")
        } else if self.confirmed {
            String::from_str("**complies with contributing.md:** ✔ yes")
        } else {
            String::from_str("**complies with contributing.md:** 😢 no")
        }
    }
}

} // verus!
