//! Movement: every enemy marches straight along the negative x-axis,
//! by `speed * elapsed` world units per tick. No pathfinding, no
//! y-axis drift; the elapsed time is a parameter so that motion stays
//! frame-rate independent.

use vstd::prelude::*;

use crate::entities::{moved, Enemy};
use crate::state::GameState;

verus! {

/// Every enemy of `enemies` after marching for `elapsed` time units.
pub open spec fn moved_all(enemies: Seq<Enemy>, elapsed: u32) -> Seq<Enemy> {
    enemies.map_values(|e: Enemy| moved(e, elapsed))
}

/// Advances every live enemy by one tick's worth of movement.
pub fn advance_all(state: &mut GameState, elapsed: u32)
    requires
        forall|i: int|
            0 <= i < old(state).enemies@.len() ==> i32::MIN <= (#[trigger] old(
                state,
            ).enemies@[i]).position.x - old(state).enemies@[i].enemy_type.speed * elapsed,
    ensures
        final(state).enemies@ == moved_all(old(state).enemies@, elapsed),
        final(state).towers@ == old(state).towers@,
        final(state).resources == old(state).resources,
        final(state).lives == old(state).lives,
        final(state).camera_position == old(state).camera_position,
{
    let n: usize = state.enemies.len();
    let mut advanced: Vec<Enemy> = Vec::new();
    let mut i: usize = 0;
    #[verifier::loop_isolation(false)]
    while i < n
        invariant
            i <= n,
            state.enemies@ == old(state).enemies@,
            advanced@.len() == i,
            forall|j: int|
                0 <= j < i ==> advanced@[j] == moved(old(state).enemies@[j], elapsed),
        decreases n - i,
    {
        let mut e = state.enemies[i].clone();
        e.advance(elapsed);
        advanced.push(e);
        i = i + 1;
    }
    proof {
        assert(advanced@ =~= moved_all(old(state).enemies@, elapsed));
    }
    state.enemies = advanced;
}

/// Movement monotonicity law: for a positive elapsed time and a moving
/// kind, one tick of movement strictly decreases the x coordinate — by
/// exactly `speed * elapsed` — and leaves the y coordinate, the hit
/// points and the kind unchanged.
pub proof fn lemma_movement_monotonic(e: Enemy, elapsed: u32)
    requires
        elapsed > 0,
        e.enemy_type.speed > 0,
        i32::MIN <= e.position.x - e.enemy_type.speed * elapsed,
    ensures
        moved(e, elapsed).position.x == e.position.x - e.enemy_type.speed * elapsed,
        moved(e, elapsed).position.x < e.position.x,
        moved(e, elapsed).position.y == e.position.y,
        moved(e, elapsed).hit_points == e.hit_points,
        moved(e, elapsed).enemy_type == e.enemy_type,
{
    assert(e.enemy_type.speed * elapsed >= 1) by (nonlinear_arith)
        requires
            e.enemy_type.speed >= 1,
            elapsed >= 1,
    ;
}

} // verus!
