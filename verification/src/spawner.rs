//! Wave spawning: how many enemies enter the map each tick, and of
//! which kind.
//!
//! The wave grows with the number of enemies currently alive:
//! `live_count / 10 + 1` enemies spawn per tick, all of the same kind,
//! picked from the catalog by the wave size modulo the catalog length.
//! Killing enemies is the only way to keep the pressure down — the
//! formula reads the live count, not the total ever spawned. That
//! escalating coupling is a deliberate tuning choice of the game.

use vstd::prelude::*;

use crate::catalog::EnemyType;
use crate::entities::{fresh_enemy, Enemy};
use crate::state::GameState;

verus! {

/// How many enemies spawn in one tick when `n` enemies are alive.
pub open spec fn wave_size(n: nat) -> nat {
    n / 10 + 1
}

/// The batch of enemies that one spawn tick appends when `n` enemies
/// are alive: `wave_size(n)` fresh enemies, all instantiated from the
/// catalog entry at index `wave_size(n) % types.len()`.
pub open spec fn spawned_wave(n: nat, types: Seq<EnemyType>) -> Seq<Enemy> {
    Seq::new(wave_size(n), |i: int| fresh_enemy(types[(wave_size(n) % types.len()) as int]))
}

/// One spawn tick: appends the wave for the current live count. The
/// catalog must have been checked non-empty once at game start.
pub fn spawn(state: &mut GameState, enemy_types: &Vec<EnemyType>)
    requires
        enemy_types@.len() > 0,
    ensures
        final(state).enemies@ == old(state).enemies@ + spawned_wave(
            old(state).enemies@.len(),
            enemy_types@,
        ),
        final(state).towers@ == old(state).towers@,
        final(state).resources == old(state).resources,
        final(state).lives == old(state).lives,
        final(state).camera_position == old(state).camera_position,
{
    let ghost wave_ghost = spawned_wave(old(state).enemies@.len(), enemy_types@);
    let n: usize = state.enemies.len();
    let wave: usize = n / 10 + 1;
    let idx: usize = wave % enemy_types.len();
    let mut k: usize = 0;
    #[verifier::loop_isolation(false)]
    while k < wave
        invariant
            k <= wave,
            state.enemies@ == old(state).enemies@ + wave_ghost.take(k as int),
            state.towers@ == old(state).towers@,
            state.resources == old(state).resources,
            state.lives == old(state).lives,
            state.camera_position == old(state).camera_position,
        decreases wave - k,
    {
        let template = enemy_types[idx].clone();
        state.enemies.push(Enemy::new(template));
        proof {
            assert(old(state).enemies@ + wave_ghost.take(k as int + 1) =~= (old(
                state,
            ).enemies@ + wave_ghost.take(k as int)).push(wave_ghost[k as int]));
        }
        k = k + 1;
    }
    proof {
        assert(wave_ghost.take(wave as int) =~= wave_ghost);
    }
}

/// Spawn count law: one spawn tick starting from `n` live enemies
/// appends exactly `n / 10 + 1` new enemies, each standing at the spawn
/// position with hit points equal to its kind's maximum.
pub proof fn lemma_spawn_count(n: nat, types: Seq<EnemyType>)
    requires
        types.len() > 0,
    ensures
        spawned_wave(n, types).len() == n / 10 + 1,
        forall|i: int|
            0 <= i < spawned_wave(n, types).len() ==> #[trigger] spawned_wave(n, types)[i]
                == fresh_enemy(types[(wave_size(n) % types.len()) as int]),
        forall|i: int|
            0 <= i < spawned_wave(n, types).len() ==> (#[trigger] spawned_wave(n, types)[i]).hit_points
                == types[(wave_size(n) % types.len()) as int].max_hit_points,
{
}

} // verus!
