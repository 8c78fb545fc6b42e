//! The fixed point of discovery, taken by itself.
//!
//! Here a check is anything that has an identity and discovers further checks. A round
//! moves the frontier to the checks that were run and makes the new ones among its
//! discoveries the next frontier. Whatever the checks are and whatever they discover, no
//! identity is ever met twice; and wherever discovery never leads back to an ancestor, which
//! is to say wherever the checks can be ranked so that every discovery ranks below the check
//! that made it, the rounds come to an end.

use vstd::prelude::*;

verus! {

/// The identities of `checks`, in order.
pub open spec fn identities_by<C>(identity: spec_fn(C) -> Seq<char>, checks: Seq<C>) -> Seq<
    Seq<char>,
> {
    checks.map_values(identity)
}

/// The checks of `found` that are new: those whose identity is not among `known` and does
/// not occur earlier in `found`. Their order is kept.
pub open spec fn fresh_by<C>(
    identity: spec_fn(C) -> Seq<char>,
    found: Seq<C>,
    known: Seq<Seq<char>>,
) -> Seq<C>
    decreases found.len(),
{
    if found.len() == 0 {
        Seq::empty()
    } else {
        let kept = fresh_by(identity, found.drop_last(), known);
        let id = identity(found.last());
        if known.contains(id) || identities_by(identity, kept).contains(id) {
            kept
        } else {
            kept.push(found.last())
        }
    }
}

/// What the checks of a frontier discover, check by check.
pub open spec fn discovered_by<C>(discover: spec_fn(C) -> Seq<C>, frontier: Seq<C>) -> Seq<C> {
    frontier.map_values(discover).flatten()
}

/// The largest rank among `checks`, plus one; zero where there is no check.
pub open spec fn height_by<C>(rank: spec_fn(C) -> nat, checks: Seq<C>) -> nat
    decreases checks.len(),
{
    if checks.len() == 0 {
        0
    } else {
        let rest = height_by(rank, checks.drop_last());
        if rank(checks.last()) + 1 > rest {
            rank(checks.last()) + 1
        } else {
            rest
        }
    }
}

/// Whether discovery always leads to a lower rank. A relation of discovery admits such a
/// ranking exactly if it is finite and never leads back to an ancestor.
pub open spec fn lowered_by<C>(rank: spec_fn(C) -> nat, discover: spec_fn(C) -> Seq<C>) -> bool {
    forall|check: C, i: int|
        0 <= i < discover(check).len() ==> rank(#[trigger] discover(check)[i]) < rank(check)
}

/// One round on the checks that were run and the frontier, in this order: the frontier
/// joins the checks that were run, and the new ones among its discoveries take its place.
pub open spec fn round<C>(
    identity: spec_fn(C) -> Seq<char>,
    discover: spec_fn(C) -> Seq<C>,
    state: (Seq<C>, Seq<C>),
) -> (Seq<C>, Seq<C>) {
    (
        state.0 + state.1,
        fresh_by(
            identity,
            discovered_by(discover, state.1),
            identities_by(identity, state.0 + state.1),
        ),
    )
}

/// `n` rounds, one after the other.
pub open spec fn rounds<C>(
    identity: spec_fn(C) -> Seq<char>,
    discover: spec_fn(C) -> Seq<C>,
    state: (Seq<C>, Seq<C>),
    n: nat,
) -> (Seq<C>, Seq<C>)
    decreases n,
{
    if n == 0 {
        state
    } else {
        round(identity, discover, rounds(identity, discover, state, (n - 1) as nat))
    }
}

/// What is kept of a list of discoveries repeats no identity and none that is known, and
/// every check that is kept was discovered.
pub proof fn lemma_fresh_is_new<C>(
    identity: spec_fn(C) -> Seq<char>,
    found: Seq<C>,
    known: Seq<Seq<char>>,
)
    ensures
        identities_by(identity, fresh_by(identity, found, known)).no_duplicates(),
        forall|i: int|
            0 <= i < fresh_by(identity, found, known).len() ==> !known.contains(
                #[trigger] identities_by(identity, fresh_by(identity, found, known))[i],
            ),
        forall|i: int|
            0 <= i < fresh_by(identity, found, known).len() ==> found.contains(
                #[trigger] fresh_by(identity, found, known)[i],
            ),
    decreases found.len(),
{
    let all = fresh_by(identity, found, known);
    if found.len() > 0 {
        let front = found.drop_last();
        lemma_fresh_is_new(identity, front, known);
        let kept = fresh_by(identity, front, known);
        assert forall|i: int| 0 <= i < all.len() implies found.contains(#[trigger] all[i]) by {
            if i < kept.len() {
                assert(all[i] == kept[i]);
                assert(front.contains(kept[i]));
                let j = choose|j: int| 0 <= j < front.len() && front[j] == kept[i];
                assert(found[j] == all[i]);
            } else {
                assert(all[i] == found[found.len() - 1]);
            }
        }
        assert forall|i: int| 0 <= i < all.len() implies !known.contains(
            #[trigger] identities_by(identity, all)[i],
        ) by {
            if i < kept.len() {
                assert(identities_by(identity, all)[i] == identities_by(identity, kept)[i]);
            }
        }
        assert forall|i: int, j: int|
            (0 <= i < all.len() && 0 <= j < all.len() && i != j) implies identities_by(
            identity,
            all,
        )[i] != identities_by(identity, all)[j] by {
            if i < kept.len() && j < kept.len() {
                assert(identities_by(identity, all)[i] == identities_by(identity, kept)[i]);
                assert(identities_by(identity, all)[j] == identities_by(identity, kept)[j]);
            } else if i < kept.len() {
                assert(identities_by(identity, all)[i] == identities_by(identity, kept)[i]);
            } else if j < kept.len() {
                assert(identities_by(identity, all)[j] == identities_by(identity, kept)[j]);
            }
        }
    } else {
        assert(identities_by(identity, all) =~= Seq::<Seq<char>>::empty());
    }
}

/// Every identity that was discovered is known afterwards: it was known before, or it is
/// that of a check that is kept.
pub proof fn lemma_fresh_misses_nothing<C>(
    identity: spec_fn(C) -> Seq<char>,
    found: Seq<C>,
    known: Seq<Seq<char>>,
    i: int,
)
    requires
        0 <= i < found.len(),
    ensures
        known.contains(identity(found[i])) || identities_by(
            identity,
            fresh_by(identity, found, known),
        ).contains(identity(found[i])),
    decreases found.len(),
{
    let front = found.drop_last();
    let kept = fresh_by(identity, front, known);
    let all = fresh_by(identity, found, known);
    let id = identity(found[i]);
    if i < found.len() - 1 {
        lemma_fresh_misses_nothing(identity, front, known, i);
        assert(front[i] == found[i]);
        if !known.contains(id) {
            let j = choose|j: int|
                0 <= j < identities_by(identity, kept).len() && identities_by(identity, kept)[j]
                    == id;
            assert(all[j] == kept[j]);
            assert(identities_by(identity, all)[j] == id);
        }
    } else {
        if !known.contains(id) && !identities_by(identity, kept).contains(id) {
            assert(all[kept.len() as int] == found[i]);
            assert(identities_by(identity, all)[kept.len() as int] == id);
        } else if !known.contains(id) {
            let j = choose|j: int|
                0 <= j < identities_by(identity, kept).len() && identities_by(identity, kept)[j]
                    == id;
            assert(identities_by(identity, all)[j] == id);
        }
    }
}

/// A round keeps every identity unique: however many checks of the frontier discover a
/// check of some identity, it enters the next frontier at most once, and not at all if a
/// check of that identity was run or is in the frontier.
pub proof fn lemma_round_keeps_identities_unique<C>(
    identity: spec_fn(C) -> Seq<char>,
    discover: spec_fn(C) -> Seq<C>,
    state: (Seq<C>, Seq<C>),
)
    requires
        identities_by(identity, state.0 + state.1).no_duplicates(),
    ensures
        identities_by(
            identity,
            round(identity, discover, state).0 + round(identity, discover, state).1,
        ).no_duplicates(),
{
    let known = identities_by(identity, state.0 + state.1);
    let next = round(identity, discover, state).1;
    lemma_fresh_is_new(identity, discovered_by(discover, state.1), known);
    assert(identities_by(identity, state.0 + state.1 + next) =~= known + identities_by(
        identity,
        next,
    ));
    vstd::seq_lib::lemma_no_dup_in_concat(known, identities_by(identity, next));
}

/// No identity is met twice, whatever the checks discover and however many rounds are
/// made: each identity occurs at most once among the checks that were run and those of the
/// frontier.
pub proof fn lemma_rounds_keep_identities_unique<C>(
    identity: spec_fn(C) -> Seq<char>,
    discover: spec_fn(C) -> Seq<C>,
    state: (Seq<C>, Seq<C>),
    n: nat,
)
    requires
        identities_by(identity, state.0 + state.1).no_duplicates(),
    ensures
        identities_by(
            identity,
            rounds(identity, discover, state, n).0 + rounds(identity, discover, state, n).1,
        ).no_duplicates(),
    decreases n,
{
    if n > 0 {
        lemma_rounds_keep_identities_unique(identity, discover, state, (n - 1) as nat);
        lemma_round_keeps_identities_unique(
            identity,
            discover,
            rounds(identity, discover, state, (n - 1) as nat),
        );
    }
}

/// The height of a list bounds the rank of each of its checks, and is reached by one of
/// them unless the list is empty.
pub proof fn lemma_height_bounds<C>(rank: spec_fn(C) -> nat, checks: Seq<C>)
    ensures
        forall|i: int|
            0 <= i < checks.len() ==> rank(#[trigger] checks[i]) < height_by(rank, checks),
        checks.len() > 0 ==> exists|i: int|
            0 <= i < checks.len() && rank(#[trigger] checks[i]) + 1 == height_by(rank, checks),
        checks.len() == 0 <==> height_by(rank, checks) == 0,
    decreases checks.len(),
{
    if checks.len() > 0 {
        let front = checks.drop_last();
        lemma_height_bounds(rank, front);
        assert forall|i: int| 0 <= i < checks.len() implies rank(#[trigger] checks[i])
            < height_by(rank, checks) by {
            if i < front.len() {
                assert(front[i] == checks[i]);
            }
        }
        if rank(checks.last()) + 1 > height_by(rank, front) {
            assert(rank(checks[checks.len() - 1]) + 1 == height_by(rank, checks));
        } else {
            let i = choose|i: int|
                0 <= i < front.len() && rank(#[trigger] front[i]) + 1 == height_by(rank, front);
            assert(checks[i] == front[i]);
        }
    }
}

/// Where discovery leads to lower ranks, what a frontier discovers ranks below some check
/// of that frontier.
pub proof fn lemma_discoveries_rank_lower<C>(
    rank: spec_fn(C) -> nat,
    discover: spec_fn(C) -> Seq<C>,
    frontier: Seq<C>,
)
    requires
        lowered_by(rank, discover),
    ensures
        forall|k: int|
            0 <= k < discovered_by(discover, frontier).len() ==> rank(
                #[trigger] discovered_by(discover, frontier)[k],
            ) + 1 < height_by(rank, frontier),
    decreases frontier.len(),
{
    if frontier.len() == 0 {
        assert(frontier.map_values(discover) =~= Seq::<Seq<C>>::empty());
    } else {
        let front = frontier.drop_last();
        let last = frontier.last();
        lemma_discoveries_rank_lower(rank, discover, front);
        assert(frontier =~= front.push(last));
        front.lemma_push_map_commute(discover, last);
        front.map_values(discover).lemma_flatten_push(discover(last));
        assert(discovered_by(discover, frontier) == discovered_by(discover, front) + discover(
            last,
        ));
        assert forall|k: int| 0 <= k < discovered_by(discover, frontier).len() implies rank(
            #[trigger] discovered_by(discover, frontier)[k],
        ) + 1 < height_by(rank, frontier) by {
            let before = discovered_by(discover, front).len();
            if k < before {
                assert(discovered_by(discover, frontier)[k] == discovered_by(discover, front)[k]);
            } else {
                assert(discovered_by(discover, frontier)[k] == discover(last)[k - before]);
                assert(rank(discover(last)[k - before]) < rank(last));
            }
        }
    }
}

/// Where discovery leads to lower ranks, every round is lower than the one before it.
pub proof fn lemma_round_lowers<C>(
    rank: spec_fn(C) -> nat,
    identity: spec_fn(C) -> Seq<char>,
    discover: spec_fn(C) -> Seq<C>,
    state: (Seq<C>, Seq<C>),
)
    requires
        lowered_by(rank, discover),
        state.1.len() > 0,
    ensures
        height_by(rank, round(identity, discover, state).1) < height_by(rank, state.1),
{
    let found = discovered_by(discover, state.1);
    let known = identities_by(identity, state.0 + state.1);
    let next = fresh_by(identity, found, known);
    lemma_fresh_is_new(identity, found, known);
    lemma_discoveries_rank_lower(rank, discover, state.1);
    lemma_height_bounds(rank, state.1);
    lemma_height_bounds(rank, next);
    if next.len() > 0 {
        let i = choose|i: int| 0 <= i < next.len() && rank(#[trigger] next[i]) + 1 == height_by(
            rank,
            next,
        );
        assert(found.contains(next[i]));
        let k = choose|k: int| 0 <= k < found.len() && found[k] == next[i];
        assert(rank(found[k]) + 1 < height_by(rank, state.1));
    }
}

/// The rounds come to an end wherever discovery never leads back to an ancestor: after as
/// many rounds as the frontier is high, no check is left to run.
pub proof fn lemma_rounds_end<C>(
    rank: spec_fn(C) -> nat,
    identity: spec_fn(C) -> Seq<char>,
    discover: spec_fn(C) -> Seq<C>,
    state: (Seq<C>, Seq<C>),
    n: nat,
)
    requires
        lowered_by(rank, discover),
    ensures
        height_by(rank, rounds(identity, discover, state, n).1) + n <= height_by(rank, state.1)
            || rounds(identity, discover, state, n).1.len() == 0,
        n >= height_by(rank, state.1) ==> rounds(identity, discover, state, n).1.len() == 0,
    decreases n,
{
    if n > 0 {
        let before = rounds(identity, discover, state, (n - 1) as nat);
        lemma_rounds_end(rank, identity, discover, state, (n - 1) as nat);
        lemma_height_bounds(rank, before.1);
        if before.1.len() > 0 {
            lemma_round_lowers(rank, identity, discover, before);
        } else {
            assert(before.1.map_values(discover) =~= Seq::<Seq<C>>::empty());
        }
    }
    lemma_height_bounds(rank, rounds(identity, discover, state, n).1);
}

} // verus!
