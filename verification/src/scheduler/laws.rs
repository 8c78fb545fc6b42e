//! What holds of the scheduler whatever happens: no check is run twice, the rounds come to
//! an end, and the checkouts are waited for in the first round only.

use crate::checks::{lemma_found_ranks_lower, lemma_run_keeps_rank, AnyCheckView};
use crate::exchange::{ReplyView, Side};
use crate::failure::FailureView;
use crate::rounds::{lemma_height_bounds, lemma_round_lowers, lowered_by, round};
use crate::scheduler::{
    discoveries_of, height, identities, identity_of, lemma_identities_concat,
    lemma_starting_inv, lemma_step_keeps_inv, lemma_update_keeps_identities, rank_of,
    ActionView, EventView, SchedulerView, Stage,
};
use vstd::prelude::*;

verus! {

/// Lists of checks whose ranks agree place by place have the same height.
pub proof fn lemma_height_by_ranks(a: Seq<AnyCheckView>, b: Seq<AnyCheckView>)
    requires
        a.len() == b.len(),
        forall|i: int| 0 <= i < a.len() ==> (#[trigger] a[i]).rank() == b[i].rank(),
    ensures
        height(a) == height(b),
    decreases a.len(),
{
    if a.len() > 0 {
        assert forall|i: int| 0 <= i < a.drop_last().len() implies (
        #[trigger] a.drop_last()[i]).rank() == b.drop_last()[i].rank() by {
            assert(a.drop_last()[i] == a[i]);
            assert(b.drop_last()[i] == b[i]);
        }
        lemma_height_by_ranks(a.drop_last(), b.drop_last());
        assert(a.last() == a[a.len() - 1]);
        assert(b.last() == b[b.len() - 1]);
    }
}

/// A list whose checks all have a rank below `bound` is no higher than `bound`.
pub proof fn lemma_height_at_most(checks: Seq<AnyCheckView>, bound: nat)
    requires
        forall|i: int| 0 <= i < checks.len() ==> (#[trigger] checks[i]).rank() < bound,
    ensures
        height(checks) <= bound,
{
    lemma_height_bounds(rank_of(), checks);
    if checks.len() > 0 {
        let i = choose|i: int|
            0 <= i < checks.len() && rank_of()(#[trigger] checks[i]) + 1 == height(checks);
        assert(checks[i].rank() < bound);
    }
}

/// Discovery among the kinds of check never leads back to an ancestor: what a check
/// discovers ranks below it.
pub proof fn lemma_discovery_is_acyclic()
    ensures
        lowered_by(rank_of(), discoveries_of()),
{
    assert forall|check: AnyCheckView, i: int|
        0 <= i < discoveries_of()(check).len() implies rank_of()(
        #[trigger] discoveries_of()(check)[i],
    ) < rank_of()(check) by {
        lemma_found_ranks_lower(check);
        assert(check.found()[i].rank() < check.rank());
    }
}

/// The end of a round of the scheduler is a round as laid down for checks of any sort,
/// taken with the identities and the discoveries of the checks at hand.
pub proof fn lemma_expansion_is_a_round(s: SchedulerView)
    ensures
        (s.expanded().executed, s.expanded().frontier) == round(
            identity_of(),
            discoveries_of(),
            (s.executed, s.frontier),
        ),
{
}

/// Every round is lower than the one before it: what a round brings up ranks below the
/// checks of that round.
pub proof fn lemma_round_lowers_height(s: SchedulerView)
    requires
        s.frontier.len() > 0,
    ensures
        height(s.expanded().frontier) < height(s.frontier),
{
    lemma_discovery_is_acyclic();
    lemma_round_lowers(rank_of(), identity_of(), discoveries_of(), (s.executed, s.frontier));
}

/// No list of checks is higher than three.
pub proof fn lemma_height_is_small(checks: Seq<AnyCheckView>)
    ensures
        height(checks) <= 3,
{
    assert forall|i: int| 0 <= i < checks.len() implies (#[trigger] checks[i]).rank() < 3 by {
        lemma_found_ranks_lower(checks[i]);
    }
    lemma_height_at_most(checks, 3);
}

/// The rounds come to an end. No event makes the frontier higher; an event that ends a round
/// makes it lower, and adds the checks of that round to those that were run, which are
/// never taken back. As no frontier is higher than three, no run has more than three
/// rounds.
pub proof fn lemma_rounds_end(s: SchedulerView, event: EventView)
    ensures
        height(s.step(event).0.frontier) <= height(s.frontier),
        s.executed.is_prefix_of(s.step(event).0.executed),
        s.step(event).0.executed != s.executed ==> identities(s.step(event).0.executed)
            == identities(s.executed + s.frontier) && height(s.step(event).0.frontier) < height(
            s.frontier,
        ),
        height(s.frontier) <= 3,
{
    lemma_height_is_small(s.frontier);
    let side = match s.stage {
        Stage::Announcing(side) => side,
        Stage::Running(side) => side,
        _ => Side::Base,
    };
    let reply = match (s.stage, event) {
        (Stage::Running(_), EventView::Replied(reply)) => reply,
        (Stage::Running(_), EventView::Failed(failure)) => ReplyView::Failed(failure),
        _ => ReplyView::Start,
    };
    if s.frontier.len() > 0 {
        lemma_round_lowers_height(s);
    }
    assert(s.executed + Seq::<AnyCheckView>::empty() =~= s.executed);
    if s.index < s.frontier.len() {
        let stepped = s.frontier[s.index as int].run_on(side, reply).0;
        let moved = SchedulerView { frontier: s.frontier.update(s.index as int, stepped), ..s };
        lemma_run_keeps_rank(s.frontier[s.index as int], side, reply);
        lemma_height_by_ranks(s.frontier, moved.frontier);
        lemma_round_lowers_height(moved);
        lemma_update_keeps_identities(s.executed, s.frontier, s.index as int, side, reply);
    }
}

/// A checkout is entered in the first round only once it is known to be ready, and is
/// neither looked for nor waited for in any later round.
pub proof fn lemma_checkouts_are_awaited_in_the_first_round_only(
    s: SchedulerView,
    event: EventView,
)
    ensures
        forall|side: Side|
            s.step(event).0.first_round && s.step(event).1 == Ok::<ActionView, FailureView>(
                ActionView::Enter(side),
            ) ==> event is Ready && (s.stage == Stage::Probing(side) || s.stage
                == Stage::Awaiting(side)),
        !s.first_round && !(s.stage is Fresh) && !(s.stage is Probing) && !(s.stage
            is Awaiting) ==> {
            &&& !s.step(event).0.first_round
            &&& !(s.step(event).0.stage is Probing)
            &&& !(s.step(event).0.stage is Awaiting)
            &&& !(s.step(event).1 matches Ok(ActionView::Probe(_)))
            &&& !(s.step(event).1 matches Ok(ActionView::Await { .. }))
        },
{
}

/// Where no identity occurs twice among the checks that were run and those of the
/// frontier, none occurs twice among the checks that were run, and none of them is met again
/// in the frontier.
pub proof fn lemma_inv_keeps_checks_apart(s: SchedulerView)
    requires
        s.inv(),
    ensures
        identities(s.executed).no_duplicates(),
        forall|i: int, j: int|
            0 <= i < s.executed.len() && 0 <= j < s.frontier.len() ==> (
            #[trigger] s.executed[i]).identity() != (#[trigger] s.frontier[j]).identity(),
{
    let all = identities(s.executed + s.frontier);
    lemma_identities_concat(s.executed, s.frontier);
    assert forall|i: int, j: int|
        (0 <= i < s.executed.len() && 0 <= j < s.executed.len() && i != j) implies identities(
        s.executed,
    )[i] != identities(s.executed)[j] by {
        assert(all[i] == identities(s.executed)[i]);
        assert(all[j] == identities(s.executed)[j]);
    }
    assert forall|i: int, j: int|
        (0 <= i < s.executed.len() && 0 <= j < s.frontier.len()) implies (
    #[trigger] s.executed[i]).identity() != (#[trigger] s.frontier[j]).identity() by {
        assert(all[i] == s.executed[i].identity());
        assert(all[s.executed.len() + j] == s.frontier[j].identity());
    }
}

/// A run that has ended stays as it ended: whether all checks are done or the run was
/// given up, every further event is refused and changes nothing. A run is given up only on
/// a failure; a command that fails or is interrupted is none, and the run goes on.
pub proof fn lemma_ends_are_final(s: SchedulerView, event: EventView)
    ensures
        s.stage == Stage::Finished || s.stage == Stage::Failed ==> s.step(event) == s.refused(),
        s.step(event).0.stage == Stage::Failed ==> s.step(event).1 is Err,
        s.step(event).1 is Err ==> s.step(event).0.stage == Stage::Failed || s.step(event).0
            == s,
{
}

/// The run finishes when a round leaves no check to run, and only then.
pub proof fn lemma_finishes_when_nothing_is_left(s: SchedulerView, event: EventView)
    requires
        s.inv(),
    ensures
        s.step(event).1 == Ok::<ActionView, FailureView>(ActionView::Finish) <==> s.stage
            != Stage::Finished && s.step(event).0.stage == Stage::Finished,
        s.step(event).0.stage == Stage::Finished ==> s.step(event).0.frontier.len() == 0,
{
    lemma_step_keeps_inv(s, event);
}

/// The checks that the scheduler knows of are never forgotten: every step keeps the
/// identities of the checks that were run and of those of the frontier, in their order,
/// and at most adds to them at the end.
pub proof fn lemma_known_checks_only_grow(s: SchedulerView, event: EventView)
    ensures
        identities(s.executed + s.frontier).is_prefix_of(
            identities(s.step(event).0.executed + s.step(event).0.frontier),
        ),
{
    let side = match s.stage {
        Stage::Announcing(side) => side,
        Stage::Running(side) => side,
        _ => Side::Base,
    };
    let reply = match (s.stage, event) {
        (Stage::Running(_), EventView::Replied(reply)) => reply,
        (Stage::Running(_), EventView::Failed(failure)) => ReplyView::Failed(failure),
        _ => ReplyView::Start,
    };
    let next = s.step(event).0;
    if s.index < s.frontier.len() {
        lemma_update_keeps_identities(s.executed, s.frontier, s.index as int, side, reply);
        let stepped = s.frontier[s.index as int].run_on(side, reply).0;
        let moved = SchedulerView { frontier: s.frontier.update(s.index as int, stepped), ..s };
        lemma_identities_concat(moved.executed + moved.frontier, moved.expanded().frontier);
    }
    lemma_identities_concat(s.executed + s.frontier, s.expanded().frontier);
    assert(identities(s.executed + s.frontier).is_prefix_of(
        identities(next.executed + next.frontier),
    ));
}

/// The scheduler after a sequence of events.
pub open spec fn after(s: SchedulerView, events: Seq<EventView>) -> SchedulerView
    decreases events.len(),
{
    if events.len() == 0 {
        s
    } else {
        after(s, events.drop_last()).step(events.last()).0
    }
}

/// How many rounds come to their end in the course of a sequence of events.
pub open spec fn rounds_ended(s: SchedulerView, events: Seq<EventView>) -> nat
    decreases events.len(),
{
    if events.len() == 0 {
        0
    } else {
        let before = after(s, events.drop_last());
        let ended = rounds_ended(s, events.drop_last());
        if before.step(events.last()).0.executed != before.executed {
            ended + 1
        } else {
            ended
        }
    }
}

/// No check is ever run twice. Whatever the seeds and whatever happens in whatever order,
/// no identity occurs twice among the checks that were run, however many checks discover a
/// check of that identity, and none of them is met again in the frontier.
pub proof fn lemma_no_check_runs_twice(seeds: Seq<AnyCheckView>, events: Seq<EventView>)
    ensures
        after(SchedulerView::starting(seeds), events).inv(),
        identities(after(SchedulerView::starting(seeds), events).executed).no_duplicates(),
        forall|i: int, j: int|
            0 <= i < after(SchedulerView::starting(seeds), events).executed.len() && 0 <= j
                < after(SchedulerView::starting(seeds), events).frontier.len() ==> after(
                SchedulerView::starting(seeds),
                events,
            ).executed[i].identity() != after(
                SchedulerView::starting(seeds),
                events,
            ).frontier[j].identity(),
    decreases events.len(),
{
    let start = SchedulerView::starting(seeds);
    if events.len() == 0 {
        lemma_starting_inv(seeds);
    } else {
        lemma_no_check_runs_twice(seeds, events.drop_last());
        lemma_step_keeps_inv(after(start, events.drop_last()), events.last());
    }
    let end = after(start, events);
    let all = identities(end.executed + end.frontier);
    lemma_identities_concat(end.executed, end.frontier);
    assert forall|i: int, j: int|
        (0 <= i < end.executed.len() && 0 <= j < end.executed.len() && i != j) implies identities(
        end.executed,
    )[i] != identities(end.executed)[j] by {
        assert(all[i] == identities(end.executed)[i]);
        assert(all[j] == identities(end.executed)[j]);
    }
    assert forall|i: int, j: int|
        (0 <= i < end.executed.len() && 0 <= j < end.frontier.len()) implies end.executed[i]
            .identity() != end.frontier[j].identity() by {
        assert(all[i] == end.executed[i].identity());
        assert(all[end.executed.len() + j] == end.frontier[j].identity());
    }
}

/// The rounds come to an end. Whatever happens in whatever order, the rounds that end and
/// the height that is left never add up to more than the height at the start; so no run
/// has more rounds than its seeds are high, which is three at most.
pub proof fn lemma_rounds_are_few(s: SchedulerView, events: Seq<EventView>)
    ensures
        rounds_ended(s, events) + height(after(s, events).frontier) <= height(s.frontier),
        rounds_ended(s, events) <= 3,
    decreases events.len(),
{
    lemma_height_is_small(s.frontier);
    if events.len() > 0 {
        lemma_rounds_are_few(s, events.drop_last());
        lemma_rounds_end(after(s, events.drop_last()), events.last());
    }
}

} // verus!
