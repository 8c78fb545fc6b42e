//! The scheduler: runs a growing set of checks on both sides of the comparison, round after
//! round, until no round brings up a check that is not known yet.
//!
//! The scheduler does no input or output. It is driven by events and answers each with the
//! action to carry out next, so that the order of all that happens is decided here.

use crate::checks::{lemma_run_keeps_identity, AnyCheck, AnyCheckView, Check};
use crate::exchange::{out_of_turn, out_of_turn_text, Reply, ReplyView, Request, RequestView, Side};
use crate::failure::{Failure, FailureView};
use crate::identity::CheckId;
use crate::rounds::{
    discovered_by, fresh_by, height_by, identities_by, lemma_fresh_is_new,
    lemma_round_keeps_identities_unique,
};
use vstd::prelude::*;
use vstd::string::StringExecFns;

pub mod laws;

verus! {

/// The identity of a check.
pub open spec fn identity_of() -> spec_fn(AnyCheckView) -> Seq<char> {
    |check: AnyCheckView| check.identity()
}

/// What a check discovers.
pub open spec fn discoveries_of() -> spec_fn(AnyCheckView) -> Seq<AnyCheckView> {
    |check: AnyCheckView| check.found()
}

/// The rank of a check.
pub open spec fn rank_of() -> spec_fn(AnyCheckView) -> nat {
    |check: AnyCheckView| check.rank()
}

/// The identities of `checks`, in order.
pub open spec fn identities(checks: Seq<AnyCheckView>) -> Seq<Seq<char>> {
    identities_by(identity_of(), checks)
}

/// What the checks of a round discovered: the discoveries of the first check in its order,
/// then those of the second, and so on.
pub open spec fn discovered(frontier: Seq<AnyCheckView>) -> Seq<AnyCheckView> {
    discovered_by(discoveries_of(), frontier)
}

/// The checks of `found` that are new: those whose identity is not among `known` and does
/// not occur earlier in `found`. Their order is kept.
pub open spec fn fresh(found: Seq<AnyCheckView>, known: Seq<Seq<char>>) -> Seq<AnyCheckView> {
    fresh_by(identity_of(), found, known)
}

/// The largest rank among `checks`, plus one; zero where there is no check. A round whose
/// frontier has this height can be followed by at most that many rounds, itself included.
pub open spec fn height(checks: Seq<AnyCheckView>) -> nat {
    height_by(rank_of(), checks)
}

/// Whether `id` is among `ids`.
fn is_known(ids: &Vec<CheckId>, id: &CheckId) -> (yes: bool)
    ensures
        yes == ids.deep_view().contains(id@),
{
    let mut i: usize = 0;
    while i < ids.len()
        invariant
            i <= ids.len(),
            forall|j: int| 0 <= j < i ==> ids.deep_view()[j] != id@,
        decreases ids.len() - i,
    {
        if ids[i] == *id {
            assert(ids.deep_view()[i as int] == id@);
            return true;
        }
        i = i + 1;
    }
    false
}

/// The identities of `checks`, in order.
pub fn identities_of(checks: &Vec<AnyCheck>) -> (ids: Vec<CheckId>)
    ensures
        ids.deep_view() == identities(checks.deep_view()),
{
    let mut ids: Vec<CheckId> = Vec::new();
    let mut i: usize = 0;
    while i < checks.len()
        invariant
            i <= checks.len(),
            ids@.len() == i,
            forall|j: int| 0 <= j < i ==> (#[trigger] ids@[j])@ == checks@[j]@.identity(),
        decreases checks.len() - i,
    {
        ids.push(checks[i].uuid());
        i = i + 1;
    }
    assert(ids.deep_view() =~= identities(checks.deep_view()));
    ids
}

/// Keeps of `found` the checks that are new with respect to `known`: a stable
/// deduplication in which the first occurrence wins.
pub fn retain_fresh(found: Vec<AnyCheck>, known: &Vec<CheckId>) -> (kept: Vec<AnyCheck>)
    ensures
        kept.deep_view() == fresh(found.deep_view(), known.deep_view()),
        kept.len() == fresh(found.deep_view(), known.deep_view()).len(),
{
    let ghost all = found.deep_view();
    let mut found = found;
    let mut kept: Vec<AnyCheck> = Vec::new();
    let mut kept_ids: Vec<CheckId> = Vec::new();
    let ghost mut done: int = 0;
    assert(all.take(0) =~= Seq::<AnyCheckView>::empty());
    assert(kept.deep_view() =~= Seq::<AnyCheckView>::empty());
    assert(kept_ids.deep_view() =~= identities(kept.deep_view()));
    assert(all.skip(0) =~= all);
    while found.len() > 0
        invariant
            0 <= done <= all.len(),
            found.deep_view() == all.skip(done),
            kept.deep_view() == fresh(all.take(done), known.deep_view()),
            kept_ids.deep_view() == identities(kept.deep_view()),
        decreases found.len(),
    {
        let ghost rest = found.deep_view();
        let ghost items = found@;
        assert(rest.len() == found.len());
        let check = found.remove(0);
        proof {
            assert(check@ == rest[0]);
            assert(done < all.len());
            assert(rest[0] == all.skip(done)[0]);
            assert(rest[0] == all[done]);
            assert(found@ =~= items.remove(0));
            assert forall|j: int| 0 <= j < found.deep_view().len() implies found.deep_view()[j]
                == all.skip(done + 1)[j] by {
                assert(found@[j] == items[j + 1]);
                assert(rest[j + 1] == items[j + 1]@);
                assert(rest[j + 1] == all.skip(done)[j + 1]);
            }
            assert(found.deep_view() =~= all.skip(done + 1));
            let next = all.take(done + 1);
            assert(next.drop_last() =~= all.take(done));
            assert(next.last() == all[done]);
        }
        let id = check.uuid();
        if !is_known(known, &id) && !is_known(&kept_ids, &id) {
            let ghost before = kept.deep_view();
            let ghost ids_before = kept_ids.deep_view();
            kept.push(check);
            kept_ids.push(id);
            assert(kept.deep_view() =~= before.push(check@));
            assert(kept_ids.deep_view() =~= ids_before.push(id@));
            assert(kept_ids.deep_view() =~= identities(kept.deep_view()));
        }
        proof {
            done = done + 1;
        }
    }
    assert(all.take(all.len() as int) =~= all);
    kept
}

/// Where the scheduler stands.
#[derive(Clone, Copy, PartialEq, Eq, Structural, Debug)]
pub enum Stage {
    /// Nothing was done yet.
    Fresh,
    /// It was asked, without waiting, whether the checkout of a side is ready.
    Probing(Side),
    /// The checkout of a side is being waited for.
    Awaiting(Side),
    /// The checkout of a side is being switched to.
    Entering(Side),
    /// The operator is being told which check is run next on a side.
    Announcing(Side),
    /// A check is under way on a side, and has made a request.
    Running(Side),
    /// No check is left to run.
    Finished,
    /// The run was given up.
    Failed,
}

/// What the scheduler wants done next.
#[derive(Clone, Debug, PartialEq, Eq)]
pub enum Action {
    /// Look, without waiting, whether the checkout of the side is ready.
    Probe(Side),
    /// Show `notice` to the operator and wait until the checkout of `side` is ready.
    Await { side: Side, notice: String },
    /// Make the checkout of the side the current state of the file system.
    Enter(Side),
    /// Show a line of progress to the operator.
    Announce(String),
    /// Carry out the request of the check at hand.
    Perform(Request),
    /// Nothing: all checks are done, and the report can be drawn up.
    Finish,
}

/// An action, as a mathematical value.
pub enum ActionView {
    Probe(Side),
    Await { side: Side, notice: Seq<char> },
    Enter(Side),
    Announce(Seq<char>),
    Perform(RequestView),
    Finish,
}

impl View for Action {
    type V = ActionView;

    open spec fn view(&self) -> ActionView {
        match self {
            Action::Probe(side) => ActionView::Probe(*side),
            Action::Await { side, notice } => ActionView::Await { side: *side, notice: notice@ },
            Action::Enter(side) => ActionView::Enter(*side),
            Action::Announce(line) => ActionView::Announce(line@),
            Action::Perform(request) => ActionView::Perform(request@),
            Action::Finish => ActionView::Finish,
        }
    }
}

/// What happened since the scheduler was last heard.
#[derive(Clone, Debug, PartialEq, Eq)]
pub enum Event {
    /// Nothing yet: the run begins.
    Start,
    /// The checkout that was probed or awaited is ready.
    Ready,
    /// The checkout that was probed is not ready yet.
    NotReady,
    /// The checkout was switched to.
    Entered,
    /// The line of progress was shown.
    Announced,
    /// What came of the request of the check at hand.
    Replied(Reply),
    /// The action could not be carried out, or the checkout could not be made.
    Failed(Failure),
}

/// An event, as a mathematical value.
pub enum EventView {
    Start,
    Ready,
    NotReady,
    Entered,
    Announced,
    Replied(ReplyView),
    Failed(FailureView),
}

impl View for Event {
    type V = EventView;

    open spec fn view(&self) -> EventView {
        match self {
            Event::Start => EventView::Start,
            Event::Ready => EventView::Ready,
            Event::NotReady => EventView::NotReady,
            Event::Entered => EventView::Entered,
            Event::Announced => EventView::Announced,
            Event::Replied(reply) => EventView::Replied(reply@),
            Event::Failed(failure) => EventView::Failed(failure@),
        }
    }
}

/// What the scheduler answers an event with: the next action, or the failure that ends the
/// run.
pub type Outcome = Result<Action, Failure>;

/// An answer of the scheduler, as a mathematical value.
pub type OutcomeView = Result<ActionView, FailureView>;

/// The model of an answer of the scheduler.
pub open spec fn outcome_view(outcome: Outcome) -> OutcomeView {
    match outcome {
        Ok(action) => Ok(action@),
        Err(failure) => Err(failure@),
    }
}

/// The heading of the report.
pub open spec fn banner() -> Seq<char> {
    "### nixpkgs-check report"@
}

/// A paragraph with a blank line in front of it.
pub open spec fn spaced() -> spec_fn(Seq<char>) -> Seq<char> {
    |paragraph: Seq<char>| "\n\n"@ + paragraph
}

/// The report made of `paragraphs`: the heading, then the paragraphs in order, with a blank
/// line in front of each.
pub open spec fn report_of(paragraphs: Seq<Seq<char>>) -> Seq<char> {
    banner() + paragraphs.map_values(spaced()).flatten()
}

/// Whether `paragraphs` can be what `executed` contribute to the report: one paragraph for
/// each check, in the order of the checks.
pub open spec fn paragraphs_of(executed: Seq<AnyCheckView>, paragraphs: Seq<Seq<char>>) -> bool {
    &&& paragraphs.len() == executed.len()
    &&& forall|i: int| 0 <= i < executed.len() ==> executed[i].reports(#[trigger] paragraphs[i])
}

/// Whether `text` can be the report on `executed`: the heading, then one paragraph for each
/// check in the order of the checks, with a blank line in front of each.
pub open spec fn reported(executed: Seq<AnyCheckView>, text: Seq<char>) -> bool {
    exists|paragraphs: Seq<Seq<char>>| #[trigger]
        paragraphs_of(executed, paragraphs) && text =~= report_of(paragraphs)
}

/// The scheduler as a mathematical value.
pub struct SchedulerView {
    /// The checks that were run on both sides, in the order in which they were run.
    pub executed: Seq<AnyCheckView>,
    /// The checks of the round under way.
    pub frontier: Seq<AnyCheckView>,
    pub stage: Stage,
    /// Which check of the frontier is at hand.
    pub index: nat,
    /// Whether the round under way is the first one.
    pub first_round: bool,
}

impl SchedulerView {
    /// The scheduler before anything is done: nothing is executed, and the seeds make up
    /// the frontier, each identity once.
    pub open spec fn starting(seeds: Seq<AnyCheckView>) -> SchedulerView {
        SchedulerView {
            executed: Seq::empty(),
            frontier: fresh(seeds, Seq::empty()),
            stage: Stage::Fresh,
            index: 0,
            first_round: true,
        }
    }

    /// No identity occurs twice among the checks that were run and those of the round
    /// under way; while a check is at hand, there is such a check; and once the run is
    /// finished, no check is left.
    pub open spec fn inv(self) -> bool {
        &&& identities(self.executed + self.frontier).no_duplicates()
        &&& (self.stage is Announcing || self.stage is Running) ==> self.index
            < self.frontier.len()
        &&& self.stage == Stage::Finished ==> self.frontier.len() == 0
    }

    /// What the operator is told while the checkout of `side` is waited for.
    pub open spec fn notice(side: Side) -> Seq<char> {
        match side {
            Side::Base =>
                "you answered the questions too fast, we're still checking out the base worktree, please wait…"@,
            Side::Candidate =>
                "the builds completed too fast, we're still checking out the to-check worktree, please wait…"@,
        }
    }

    /// What was under way when the checkout of `side` could not be made.
    pub open spec fn provisioning_context(side: Side) -> Seq<char> {
        "checking out "@ + side.label_text() + " worktree"@
    }

    /// The line that tells the operator which check is run next on `side`.
    pub open spec fn announcement(side: Side, title: Seq<char>) -> Seq<char> {
        "running "@ + side.label_text() + " version of "@ + title
    }

    /// What was under way when the check named `title` failed on `side`.
    pub open spec fn running_context(side: Side, title: Seq<char>) -> Seq<char> {
        "running check "@ + title + " on "@ + side.label_text() + " version"@
    }

    /// The run is given up.
    pub open spec fn failed(self, failure: FailureView) -> (SchedulerView, OutcomeView) {
        (SchedulerView { stage: Stage::Failed, ..self }, Err(failure))
    }

    /// The event does not answer the action that was asked for: nothing changes.
    pub open spec fn refused(self) -> (SchedulerView, OutcomeView) {
        (self, Err(FailureView::bare(out_of_turn_text())))
    }

    /// The end of a round: the checks of the frontier join those that were run, and the
    /// new ones among their discoveries make up the next frontier.
    pub open spec fn expanded(self) -> SchedulerView {
        SchedulerView {
            executed: self.executed + self.frontier,
            frontier: fresh(
                discovered(self.frontier),
                identities(self.executed + self.frontier),
            ),
            index: 0,
            first_round: false,
            ..self
        }
    }

    /// The start of a round, or the end of the run where no check is left.
    pub open spec fn next_round(self) -> (SchedulerView, OutcomeView) {
        if self.frontier.len() == 0 {
            (SchedulerView { stage: Stage::Finished, ..self }, Ok(ActionView::Finish))
        } else {
            (
                SchedulerView { stage: Stage::Entering(Side::Base), ..self },
                Ok(ActionView::Enter(Side::Base)),
            )
        }
    }

    /// Turns to the check at `index` on `side`; past the last one, the pass over the
    /// frontier is over. After the base side comes the candidate side, whose checkout is
    /// looked for in the first round only; after the candidate side the round ends.
    pub open spec fn turn_to(self, side: Side, index: nat) -> (SchedulerView, OutcomeView) {
        if index < self.frontier.len() {
            (
                SchedulerView { stage: Stage::Announcing(side), index, ..self },
                Ok(
                    ActionView::Announce(
                        Self::announcement(side, self.frontier[index as int].title()),
                    ),
                ),
            )
        } else {
            match side {
                Side::Base => if self.first_round {
                    (
                        SchedulerView { stage: Stage::Probing(Side::Candidate), index: 0, ..self },
                        Ok(ActionView::Probe(Side::Candidate)),
                    )
                } else {
                    (
                        SchedulerView { stage: Stage::Entering(Side::Candidate), index: 0, ..self },
                        Ok(ActionView::Enter(Side::Candidate)),
                    )
                },
                Side::Candidate => self.expanded().next_round(),
            }
        }
    }

    /// The check at hand makes a step on `side` in answer to `reply`. A request of the
    /// check is passed on; a check that is done gives way to the next one; a failure of the
    /// check ends the run.
    pub open spec fn advance(self, side: Side, reply: ReplyView) -> (SchedulerView, OutcomeView) {
        if self.index < self.frontier.len() {
            let stepped = self.frontier[self.index as int].run_on(side, reply);
            let moved = SchedulerView {
                frontier: self.frontier.update(self.index as int, stepped.0),
                ..self
            };
            match stepped.1 {
                Err(failure) => moved.failed(
                    failure.within(Self::running_context(side, stepped.0.title())),
                ),
                Ok(Some(request)) => (
                    SchedulerView { stage: Stage::Running(side), ..moved },
                    Ok(ActionView::Perform(request)),
                ),
                Ok(None) => moved.turn_to(side, self.index + 1),
            }
        } else {
            self.refused()
        }
    }

    /// What the scheduler does on `event`: its state afterwards, and its answer.
    pub open spec fn step(self, event: EventView) -> (SchedulerView, OutcomeView) {
        match (self.stage, event) {
            (Stage::Fresh, EventView::Start) => if self.frontier.len() == 0 {
                (SchedulerView { stage: Stage::Finished, ..self }, Ok(ActionView::Finish))
            } else {
                (
                    SchedulerView { stage: Stage::Probing(Side::Base), ..self },
                    Ok(ActionView::Probe(Side::Base)),
                )
            },
            (Stage::Probing(side), EventView::Ready) => (
                SchedulerView { stage: Stage::Entering(side), ..self },
                Ok(ActionView::Enter(side)),
            ),
            (Stage::Probing(side), EventView::NotReady) => (
                SchedulerView { stage: Stage::Awaiting(side), ..self },
                Ok(ActionView::Await { side, notice: Self::notice(side) }),
            ),
            (Stage::Probing(side), EventView::Failed(failure)) => self.failed(
                failure.within(Self::provisioning_context(side)),
            ),
            (Stage::Awaiting(side), EventView::Ready) => (
                SchedulerView { stage: Stage::Entering(side), ..self },
                Ok(ActionView::Enter(side)),
            ),
            (Stage::Awaiting(side), EventView::Failed(failure)) => self.failed(
                failure.within(Self::provisioning_context(side)),
            ),
            (Stage::Entering(side), EventView::Entered) => self.turn_to(side, 0),
            (Stage::Entering(side), EventView::Failed(failure)) => self.failed(failure),
            (Stage::Announcing(side), EventView::Announced) => self.advance(
                side,
                ReplyView::Start,
            ),
            (Stage::Announcing(side), EventView::Failed(failure)) => self.failed(failure),
            (Stage::Running(side), EventView::Replied(reply)) => self.advance(side, reply),
            (Stage::Running(side), EventView::Failed(failure)) => self.advance(
                side,
                ReplyView::Failed(failure),
            ),
            _ => self.refused(),
        }
    }
}

/// Drives the checks. See [`SchedulerView::step`] for what it does on each event.
pub struct Scheduler {
    executed: Vec<AnyCheck>,
    frontier: Vec<AnyCheck>,
    stage: Stage,
    index: usize,
    first_round: bool,
}

impl View for Scheduler {
    type V = SchedulerView;

    closed spec fn view(&self) -> SchedulerView {
        SchedulerView {
            executed: self.executed.deep_view(),
            frontier: self.frontier.deep_view(),
            stage: self.stage,
            index: self.index as nat,
            first_round: self.first_round,
        }
    }
}

/// The identities of two lists one after the other.
pub proof fn lemma_identities_concat(a: Seq<AnyCheckView>, b: Seq<AnyCheckView>)
    ensures
        identities(a + b) == identities(a) + identities(b),
{
    assert(identities(a + b) =~= identities(a) + identities(b));
}

/// The end of a round keeps every identity unique.
pub proof fn lemma_expansion_keeps_inv(s: SchedulerView)
    requires
        identities(s.executed + s.frontier).no_duplicates(),
    ensures
        identities(s.expanded().executed + s.expanded().frontier).no_duplicates(),
{
    lemma_round_keeps_identities_unique(
        identity_of(),
        discoveries_of(),
        (s.executed, s.frontier),
    );
}

/// A step of the check at hand changes no identity.
pub proof fn lemma_update_keeps_identities(
    executed: Seq<AnyCheckView>,
    frontier: Seq<AnyCheckView>,
    index: int,
    side: Side,
    reply: ReplyView,
)
    requires
        0 <= index < frontier.len(),
    ensures
        identities(executed + frontier.update(index, frontier[index].run_on(side, reply).0))
            == identities(executed + frontier),
{
    lemma_run_keeps_identity(frontier[index], side, reply);
    assert(identities(executed + frontier.update(index, frontier[index].run_on(side, reply).0))
        =~= identities(executed + frontier));
}

/// Whatever happens, no identity occurs twice among the checks that were run and those of
/// the round under way. In particular no check is run twice, however many checks discover
/// it, and the frontier shares no identity with the checks that were run.
pub proof fn lemma_step_keeps_inv(s: SchedulerView, event: EventView)
    requires
        s.inv(),
    ensures
        s.step(event).0.inv(),
{
    let side = match s.stage {
        Stage::Announcing(side) => side,
        Stage::Running(side) => side,
        _ => Side::Base,
    };
    let reply = match (s.stage, event) {
        (Stage::Running(_), EventView::Replied(reply)) => reply,
        (Stage::Running(_), EventView::Failed(failure)) => ReplyView::Failed(failure),
        _ => ReplyView::Start,
    };
    if s.index < s.frontier.len() {
        lemma_update_keeps_identities(s.executed, s.frontier, s.index as int, side, reply);
        let moved = SchedulerView {
            frontier: s.frontier.update(
                s.index as int,
                s.frontier[s.index as int].run_on(side, reply).0,
            ),
            ..s
        };
        lemma_expansion_keeps_inv(moved);
    }
    lemma_expansion_keeps_inv(s);
}

/// The seeds make up a frontier in which every identity is unique.
pub proof fn lemma_starting_inv(seeds: Seq<AnyCheckView>)
    ensures
        SchedulerView::starting(seeds).inv(),
{
    lemma_fresh_is_new(identity_of(), seeds, Seq::empty());
    assert(Seq::<AnyCheckView>::empty() + fresh(seeds, Seq::empty()) =~= fresh(
        seeds,
        Seq::empty(),
    ));
}

/// The discoveries of a frontier are gathered check by check.
pub proof fn lemma_discovered_step(frontier: Seq<AnyCheckView>, n: int)
    requires
        0 <= n < frontier.len(),
    ensures
        discovered(frontier.take(n + 1)) == discovered(frontier.take(n)) + frontier[n].found(),
{
    let found = |check: AnyCheckView| check.found();
    let done = frontier.take(n);
    assert(frontier.take(n + 1) =~= done.push(frontier[n]));
    done.lemma_push_map_commute(found, frontier[n]);
    done.map_values(found).lemma_flatten_push(frontier[n].found());
}

impl Scheduler {
    #[verifier::type_invariant]
    closed spec fn sound(&self) -> bool {
        self@.inv()
    }

    /// A scheduler that will run `seeds`, and whatever they lead to. Of seeds with the same
    /// identity the first is kept.
    pub fn new(seeds: Vec<AnyCheck>) -> (scheduler: Scheduler)
        ensures
            scheduler@ == SchedulerView::starting(seeds.deep_view()),
            scheduler@.inv(),
    {
        let known: Vec<CheckId> = Vec::new();
        assert(known.deep_view() =~= Seq::<Seq<char>>::empty());
        proof {
            lemma_starting_inv(seeds.deep_view());
        }
        let frontier = retain_fresh(seeds, &known);
        let executed: Vec<AnyCheck> = Vec::new();
        assert(executed.deep_view() =~= Seq::<AnyCheckView>::empty());
        Scheduler { executed, frontier, stage: Stage::Fresh, index: 0, first_round: true }
    }

    /// Where the scheduler stands.
    pub fn stage(&self) -> (stage: Stage)
        ensures
            stage == self@.stage,
    {
        self.stage
    }

    /// Whether no check is left to run.
    pub fn is_finished(&self) -> (yes: bool)
        ensures
            yes == (self@.stage == Stage::Finished),
    {
        self.stage == Stage::Finished
    }

    /// The checks that were run, in the order in which they were run.
    pub fn executed(&self) -> (checks: &Vec<AnyCheck>)
        ensures
            checks.deep_view() == self@.executed,
            checks.len() == self@.executed.len(),
    {
        &self.executed
    }

    /// The checks of the round under way.
    pub fn frontier(&self) -> (checks: &Vec<AnyCheck>)
        ensures
            checks.deep_view() == self@.frontier,
            checks.len() == self@.frontier.len(),
    {
        &self.frontier
    }

    /// The identities of the checks that were run, then of those of the round under way.
    /// None occurs twice.
    pub fn identities(&self) -> (ids: Vec<CheckId>)
        ensures
            ids.deep_view() == identities(self@.executed + self@.frontier),
            ids.deep_view().no_duplicates(),
    {
        proof {
            use_type_invariant(self);
            lemma_identities_concat(self@.executed, self@.frontier);
        }
        let mut ids = identities_of(&self.executed);
        let mut others = identities_of(&self.frontier);
        let ghost first = ids.deep_view();
        let ghost second = others.deep_view();
        ids.append(&mut others);
        assert(ids.deep_view() =~= first + second);
        ids
    }

    /// The report on the checks that were run so far.
    pub fn report(&self) -> (text: String)
        ensures
            reported(self@.executed, text@),
    {
        let mut paragraphs: Vec<String> = Vec::new();
        let mut lines: Vec<String> = Vec::new();
        let mut i: usize = 0;
        while i < self.executed.len()
            invariant
                i <= self.executed.len(),
                paragraphs@.len() == i,
                lines@.len() == i,
                forall|j: int| 0 <= j < i ==> self.executed@[j]@.reports(#[trigger] paragraphs@[j]@),
                forall|j: int| 0 <= j < i ==> lines@[j]@ == "\n\n"@ + paragraphs@[j]@,
            decreases self.executed.len() - i,
        {
            let paragraph = self.executed[i].report();
            lines.push(crate::text::cat2("\n\n", paragraph.as_str()));
            paragraphs.push(paragraph);
            i = i + 1;
        }
        let mut text = String::from_str("### nixpkgs-check report");
        text.append(crate::text::glue(&lines).as_str());
        proof {
            let told = paragraphs.deep_view();
            assert(lines.deep_view() =~= told.map_values(spaced()));
            assert forall|j: int| 0 <= j < self@.executed.len() implies self@.executed[j].reports(
                #[trigger] told[j],
            ) by {
                assert(self.executed@[j]@.reports(paragraphs@[j]@));
            }
            assert(paragraphs_of(self@.executed, told));
            assert(text@ == report_of(told));
        }
        text
    }

    /// A scheduler with nothing to do.
    fn parked() -> (scheduler: Scheduler)
        ensures
            scheduler@.stage == Stage::Failed,
    {
        let executed: Vec<AnyCheck> = Vec::new();
        let frontier: Vec<AnyCheck> = Vec::new();
        assert(identities(executed.deep_view() + frontier.deep_view()) =~= Seq::<
            Seq<char>,
        >::empty());
        Scheduler { executed, frontier, stage: Stage::Failed, index: 0, first_round: false }
    }

    fn fail(self, failure: Failure) -> (next: (Scheduler, Outcome))
        ensures
            next.0@ == self@.failed(failure@).0,
            outcome_view(next.1) == self@.failed(failure@).1,
    {
        proof {
            use_type_invariant(&self);
        }
        let Scheduler { executed, frontier, stage, index, first_round } = self;
        (Scheduler { executed, frontier, stage: Stage::Failed, index, first_round }, Err(failure))
    }

    /// Ends the round under way and begins the next one, if there is one.
    fn close_round(self) -> (next: (Scheduler, Outcome))
        ensures
            next.0@ == self@.expanded().next_round().0,
            outcome_view(next.1) == self@.expanded().next_round().1,
    {
        proof {
            use_type_invariant(&self);
            lemma_expansion_keeps_inv(self@);
        }
        let Scheduler { executed, frontier, stage, index, first_round } = self;
        let mut executed = executed;
        let mut frontier = frontier;
        let mut found: Vec<AnyCheck> = Vec::new();
        let mut i: usize = 0;
        assert(found.deep_view() =~= discovered(frontier.deep_view().take(0))) by {
            assert(frontier.deep_view().take(0) =~= Seq::<AnyCheckView>::empty());
        }
        while i < frontier.len()
            invariant
                i <= frontier.len(),
                found.deep_view() == discovered(frontier.deep_view().take(i as int)),
            decreases frontier.len() - i,
        {
            match frontier[i].additional_needed_tests() {
                Err(failure) => {
                    return (
                        Scheduler { executed, frontier, stage: Stage::Failed, index, first_round },
                        Err(failure),
                    );
                },
                Ok(more) => {
                    let mut more = more;
                    let ghost sofar = found.deep_view();
                    let ghost added = more.deep_view();
                    proof {
                        lemma_discovered_step(frontier.deep_view(), i as int);
                    }
                    found.append(&mut more);
                    assert(found.deep_view() =~= sofar + added);
                },
            }
            i = i + 1;
        }
        assert(frontier.deep_view().take(frontier.len() as int) =~= frontier.deep_view());
        let ghost ran = executed.deep_view();
        let ghost round = frontier.deep_view();
        executed.append(&mut frontier);
        assert(executed.deep_view() =~= ran + round);
        let known = identities_of(&executed);
        let frontier = retain_fresh(found, &known);
        if frontier.len() == 0 {
            (
                Scheduler {
                    executed,
                    frontier,
                    stage: Stage::Finished,
                    index: 0,
                    first_round: false,
                },
                Ok(Action::Finish),
            )
        } else {
            (
                Scheduler {
                    executed,
                    frontier,
                    stage: Stage::Entering(Side::Base),
                    index: 0,
                    first_round: false,
                },
                Ok(Action::Enter(Side::Base)),
            )
        }
    }

    fn turn_to(self, side: Side, index: usize) -> (next: (Scheduler, Outcome))
        ensures
            next.0@ == self@.turn_to(side, index as nat).0,
            outcome_view(next.1) == self@.turn_to(side, index as nat).1,
    {
        proof {
            use_type_invariant(&self);
        }
        if index < self.frontier.len() {
            let mut line = String::from_str("running ");
            line.append(side.label());
            line.append(" version of ");
            line.append(self.frontier[index].name().as_str());
            let Scheduler { executed, frontier, stage, index: _, first_round } = self;
            (
                Scheduler {
                    executed,
                    frontier,
                    stage: Stage::Announcing(side),
                    index,
                    first_round,
                },
                Ok(Action::Announce(line)),
            )
        } else {
            match side {
                Side::Base => {
                    let Scheduler { executed, frontier, stage, index: _, first_round } = self;
                    if first_round {
                        (
                            Scheduler {
                                executed,
                                frontier,
                                stage: Stage::Probing(Side::Candidate),
                                index: 0,
                                first_round,
                            },
                            Ok(Action::Probe(Side::Candidate)),
                        )
                    } else {
                        (
                            Scheduler {
                                executed,
                                frontier,
                                stage: Stage::Entering(Side::Candidate),
                                index: 0,
                                first_round,
                            },
                            Ok(Action::Enter(Side::Candidate)),
                        )
                    }
                },
                Side::Candidate => self.close_round(),
            }
        }
    }

    fn advance(self, side: Side, reply: Reply) -> (next: (Scheduler, Outcome))
        ensures
            next.0@ == self@.advance(side, reply@).0,
            outcome_view(next.1) == self@.advance(side, reply@).1,
    {
        proof {
            use_type_invariant(&self);
        }
        if self.index < self.frontier.len() {
            let ghost before = self@;
            let Scheduler { executed, frontier, stage, index, first_round } = self;
            let mut frontier = frontier;
            let ghost round = frontier.deep_view();
            proof {
                lemma_update_keeps_identities(
                    executed.deep_view(),
                    round,
                    index as int,
                    side,
                    reply@,
                );
            }
            let step = frontier[index].run_on(side, reply);
            assert(frontier.deep_view() =~= round.update(
                index as int,
                round[index as int].run_on(side, reply@).0,
            ));
            match step {
                Err(failure) => {
                    let mut context = String::from_str("running check ");
                    context.append(frontier[index].name().as_str());
                    context.append(" on ");
                    context.append(side.label());
                    context.append(" version");
                    (
                        Scheduler {
                            executed,
                            frontier,
                            stage: Stage::Failed,
                            index,
                            first_round,
                        },
                        Err(failure.context(context)),
                    )
                },
                Ok(Some(request)) => (
                    Scheduler {
                        executed,
                        frontier,
                        stage: Stage::Running(side),
                        index,
                        first_round,
                    },
                    Ok(Action::Perform(request)),
                ),
                Ok(None) => {
                    let moved = Scheduler {
                        executed,
                        frontier,
                        stage: Stage::Failed,
                        index,
                        first_round,
                    };
                    let next = moved.turn_to(side, index + 1);
                    assert(moved@.turn_to(side, (index + 1) as nat) == (SchedulerView {
                        stage,
                        ..moved@
                    }).turn_to(side, (index + 1) as nat));
                    next
                },
            }
        } else {
            (self, Err(out_of_turn()))
        }
    }

    /// The scheduler after `event`, and what is to be done next.
    pub fn step(self, event: Event) -> (next: (Scheduler, Outcome))
        ensures
            next.0@ == self@.step(event@).0,
            outcome_view(next.1) == self@.step(event@).1,
            next.0@.inv(),
            identities(next.0@.executed).no_duplicates(),
            height(next.0@.frontier) <= height(self@.frontier) <= 3,
            next.0@.executed != self@.executed ==> height(next.0@.frontier) < height(
                self@.frontier,
            ),
            next.1 matches Ok(Action::Finish) ==> next.0@.frontier.len() == 0,
    {
        proof {
            use_type_invariant(&self);
            lemma_step_keeps_inv(self@, event@);
            crate::scheduler::laws::lemma_inv_keeps_checks_apart(self@.step(event@).0);
            crate::scheduler::laws::lemma_rounds_end(self@, event@);
            crate::scheduler::laws::lemma_finishes_when_nothing_is_left(self@, event@);
        }
        match (self.stage, event) {
            (Stage::Fresh, Event::Start) => {
                let Scheduler { executed, frontier, stage, index, first_round } = self;
                if frontier.len() == 0 {
                    (
                        Scheduler {
                            executed,
                            frontier,
                            stage: Stage::Finished,
                            index,
                            first_round,
                        },
                        Ok(Action::Finish),
                    )
                } else {
                    (
                        Scheduler {
                            executed,
                            frontier,
                            stage: Stage::Probing(Side::Base),
                            index,
                            first_round,
                        },
                        Ok(Action::Probe(Side::Base)),
                    )
                }
            },
            (Stage::Probing(side), Event::Ready) => self.enter(side),
            (Stage::Probing(side), Event::NotReady) => {
                let Scheduler { executed, frontier, stage, index, first_round } = self;
                let notice = match side {
                    Side::Base => String::from_str(
                        "you answered the questions too fast, we're still checking out the base worktree, please wait…",
                    ),
                    Side::Candidate => String::from_str(
                        "the builds completed too fast, we're still checking out the to-check worktree, please wait…",
                    ),
                };
                (
                    Scheduler {
                        executed,
                        frontier,
                        stage: Stage::Awaiting(side),
                        index,
                        first_round,
                    },
                    Ok(Action::Await { side, notice }),
                )
            },
            (Stage::Probing(side), Event::Failed(failure)) => {
                let context = crate::text::cat3("checking out ", side.label(), " worktree");
                self.fail(failure.context(context))
            },
            (Stage::Awaiting(side), Event::Ready) => self.enter(side),
            (Stage::Awaiting(side), Event::Failed(failure)) => {
                let context = crate::text::cat3("checking out ", side.label(), " worktree");
                self.fail(failure.context(context))
            },
            (Stage::Entering(side), Event::Entered) => self.turn_to(side, 0),
            (Stage::Entering(side), Event::Failed(failure)) => self.fail(failure),
            (Stage::Announcing(side), Event::Announced) => self.advance(side, Reply::Start),
            (Stage::Announcing(side), Event::Failed(failure)) => self.fail(failure),
            (Stage::Running(side), Event::Replied(reply)) => self.advance(side, reply),
            (Stage::Running(side), Event::Failed(failure)) => self.advance(
                side,
                Reply::Failed(failure),
            ),
            _ => (self, Err(out_of_turn())),
        }
    }

    fn enter(self, side: Side) -> (next: (Scheduler, Outcome))
        requires
            self@.stage is Probing || self@.stage is Awaiting,
        ensures
            next.0@ == (SchedulerView { stage: Stage::Entering(side), ..self@ }),
            outcome_view(next.1) == Ok::<ActionView, FailureView>(ActionView::Enter(side)),
    {
        proof {
            use_type_invariant(&self);
        }
        let Scheduler { executed, frontier, stage, index, first_round } = self;
        (
            Scheduler {
                executed,
                frontier,
                stage: Stage::Entering(side),
                index,
                first_round,
            },
            Ok(Action::Enter(side)),
        )
    }

    /// Runs the checks as far as `event` allows: takes note of the event and says what is to
    /// be done next. The run is over when the answer is `Action::Finish`. An `Err` ends the
    /// run too: every event after it is refused.
    pub fn run(&mut self, event: Event) -> (outcome: Outcome)
        ensures
            final(self)@ == old(self)@.step(event@).0,
            outcome_view(outcome) == old(self)@.step(event@).1,
            final(self)@.inv(),
            identities(final(self)@.executed).no_duplicates(),
            height(final(self)@.frontier) <= height(old(self)@.frontier) <= 3,
            final(self)@.executed != old(self)@.executed ==> height(final(self)@.frontier)
                < height(old(self)@.frontier),
            outcome matches Ok(Action::Finish) ==> final(self)@.frontier.len() == 0,
    {
        let mut current = Scheduler::parked();
        std::mem::swap(self, &mut current);
        let (next, outcome) = current.step(event);
        *self = next;
        outcome
    }
}

} // verus!
