//! What holds of every tick and of runs of ticks.
use vstd::prelude::*;

use crate::engine::{locks, next_state};
use crate::structs::{
    footprints_overlap, same_column, spawn_of, Block, TickInput, WorldLimits, WorldState,
    FAST_STEP_DOWN, STEP_DOWN,
};

verus! {

/// Every settled block stands in a grid column between the walls, at or
/// below the top.
pub open spec fn settled_on_grid(s: WorldState, limits: WorldLimits) -> bool {
    forall|i: int|
        0 <= i < s.settled.len() ==> limits.on_grid((#[trigger] s.settled[i]).x())
            && s.settled[i].y() >= 0
}

/// No two settled blocks stand at the same position.
pub open spec fn settled_distinct(settled: Seq<Block>) -> bool {
    forall|i: int, j: int|
        0 <= i < j < settled.len() ==> (#[trigger] settled[i]).position
            != (#[trigger] settled[j]).position
}

/// No two settled footprints overlap.
pub open spec fn settled_disjoint(settled: Seq<Block>) -> bool {
    forall|i: int, j: int|
        0 <= i < j < settled.len() ==> !footprints_overlap(
            #[trigger] settled[i],
            #[trigger] settled[j],
        )
}

/// A settled block that the active block overlaps in its own column lies
/// strictly below it: the active block only ever sinks into a block from
/// above, by less than one fall.
pub open spec fn approached_from_above(s: WorldState) -> bool {
    forall|i: int|
        0 <= i < s.settled.len() && same_column(#[trigger] s.settled[i], s.current)
            && footprints_overlap(s.settled[i], s.current) ==> s.current.y() < s.settled[i].y()
}

/// The state that every tick of a game that is not over keeps.
pub open spec fn world_inv(s: WorldState, limits: WorldLimits) -> bool {
    &&& limits.on_grid(s.current.x())
    &&& s.current.y() >= 0
    &&& settled_on_grid(s, limits)
    &&& settled_distinct(s.settled)
    &&& approached_from_above(s)
}

/// A fresh world, with the spawned block and nothing settled, meets the
/// invariant.
pub proof fn lemma_fresh_world_invariant(limits: WorldLimits)
    requires
        limits.wf(),
    ensures
        world_inv(WorldState { current: spawn_of(limits), settled: Seq::empty() }, limits),
{
}

/// A tick keeps every settled block in a grid column between the walls,
/// keeps the settled positions pairwise distinct, and keeps the active
/// block in a grid column; when the tick does not end the game it keeps
/// the whole invariant.
pub proof fn lemma_tick_preserves_invariant(s: WorldState, limits: WorldLimits, input: TickInput)
    requires
        limits.wf(),
        world_inv(s, limits),
    ensures
        ({
            let (t, terminal) = next_state(s, limits, input);
            &&& settled_on_grid(t, limits)
            &&& settled_distinct(t.settled)
            &&& limits.on_grid(t.current.x())
            &&& !terminal ==> world_inv(t, limits)
        }),
{
    let (t, terminal) = next_state(s, limits, input);
    assert(limits.on_grid(spawn_of(limits).x()));
    if locks(s) {
        let settled = s.settled.push(s.current);
        assert forall|i: int, j: int| 0 <= i < j < settled.len() implies (
        #[trigger] settled[i]).position != (#[trigger] settled[j]).position by {
            if j == s.settled.len() {
                assert(settled[i] == s.settled[i]);
                if settled[i].position == s.current.position {
                    assert(same_column(s.settled[i], s.current));
                    assert(footprints_overlap(s.settled[i], s.current));
                }
            } else {
                assert(settled[i] == s.settled[i]);
                assert(settled[j] == s.settled[j]);
            }
        }
        assert forall|i: int| 0 <= i < settled.len() implies limits.on_grid(
            (#[trigger] settled[i]).x(),
        ) && settled[i].y() >= 0 by {
            if i < s.settled.len() {
                assert(settled[i] == s.settled[i]);
            }
        }
    }
}

/// A tick keeps the active block strictly between the walls.
pub proof fn lemma_active_block_stays_inside(
    s: WorldState,
    limits: WorldLimits,
    input: TickInput,
)
    requires
        limits.wf(),
        limits.inside(s.current.x()),
    ensures
        limits.inside(next_state(s, limits, input).0.current.x()),
{
}

/// A tick keeps the settled footprints pairwise disjoint, unless it locks
/// the active block while that block overlaps a settled one: a block that
/// lands on another has sunk into it by up to one fall before it locks.
pub proof fn lemma_settled_footprints_stay_disjoint(
    s: WorldState,
    limits: WorldLimits,
    input: TickInput,
)
    requires
        settled_disjoint(s.settled),
        locks(s) ==> forall|i: int|
            0 <= i < s.settled.len() ==> !footprints_overlap(#[trigger] s.settled[i], s.current),
    ensures
        settled_disjoint(next_state(s, limits, input).0.settled),
{
    if locks(s) {
        let settled = s.settled.push(s.current);
        assert forall|i: int, j: int| 0 <= i < j < settled.len() implies !footprints_overlap(
            #[trigger] settled[i],
            #[trigger] settled[j],
        ) by {
            assert(settled[i] == s.settled[i]);
            if j < s.settled.len() {
                assert(settled[j] == s.settled[j]);
            }
        }
    }
}

/// The world after each input of `inputs` in turn.
pub open spec fn run(s: WorldState, limits: WorldLimits, inputs: Seq<TickInput>) -> WorldState
    decreases inputs.len(),
{
    if inputs.len() == 0 {
        s
    } else {
        next_state(run(s, limits, inputs.drop_last()), limits, inputs.last()).0
    }
}

/// Some tick of the run starts in a state that locks.
pub open spec fn locks_during(s: WorldState, limits: WorldLimits, inputs: Seq<TickInput>) -> bool
    decreases inputs.len(),
{
    if inputs.len() == 0 {
        false
    } else {
        locks_during(s, limits, inputs.drop_last()) || locks(run(s, limits, inputs.drop_last()))
    }
}

/// No input of `inputs` presses left or right.
pub open spec fn no_sideways_input(inputs: Seq<TickInput>) -> bool {
    forall|i: int| 0 <= i < inputs.len() ==> !(#[trigger] inputs[i]).left_pressed
        && !inputs[i].right_pressed
}

/// A tick without a lock and without a sideways press moves the active
/// block down by one fall and changes nothing else.
pub proof fn lemma_quiet_tick_only_falls(s: WorldState, limits: WorldLimits, input: TickInput)
    requires
        !locks(s),
        !input.left_pressed,
        !input.right_pressed,
    ensures
        ({
            let (t, terminal) = next_state(s, limits, input);
            &&& !terminal
            &&& t.settled == s.settled
            &&& t.current.x() == s.current.x()
            &&& t.current.y() == s.current.y() + (if input.down_held {
                FAST_STEP_DOWN
            } else {
                STEP_DOWN
            })
        }),
{
}

/// Ticks without sideways presses, up to the first lock, change only the
/// active block's `y`, and never decrease it.
pub proof fn lemma_quiet_run_only_falls(
    s: WorldState,
    limits: WorldLimits,
    inputs: Seq<TickInput>,
)
    requires
        no_sideways_input(inputs),
        !locks_during(s, limits, inputs),
    ensures
        forall|k: int|
            0 <= k <= inputs.len() ==> (#[trigger] run(s, limits, inputs.take(k))).settled
                == s.settled && run(s, limits, inputs.take(k)).current.x() == s.current.x(),
        forall|k: int|
            0 <= k < inputs.len() ==> (#[trigger] run(s, limits, inputs.take(k))).current.y()
                <= run(s, limits, inputs.take(k + 1)).current.y(),
    decreases inputs.len(),
{
    let n = inputs.len() as int;
    if n > 0 {
        let prefix = inputs.drop_last();
        assert forall|i: int| 0 <= i < prefix.len() implies !(#[trigger] prefix[i]).left_pressed
            && !prefix[i].right_pressed by {
            assert(prefix[i] == inputs[i]);
        }
        lemma_quiet_run_only_falls(s, limits, prefix);
        assert forall|k: int| 0 <= k <= n - 1 implies #[trigger] inputs.take(k) == prefix.take(
            k,
        ) by {
            assert(inputs.take(k) =~= prefix.take(k));
        }
        assert(inputs.take(n) =~= inputs);
        assert(prefix.take(n - 1) =~= prefix);
        assert(inputs.take(n - 1) =~= prefix);
        let before = run(s, limits, prefix);
        assert(!inputs.last().left_pressed && !inputs.last().right_pressed) by {
            assert(inputs.last() == inputs[n - 1]);
        }
        lemma_quiet_tick_only_falls(before, limits, inputs.last());
        assert(run(s, limits, inputs) == next_state(before, limits, inputs.last()).0);
    } else {
        assert(inputs.take(0) =~= inputs);
    }
}

} // verus!
