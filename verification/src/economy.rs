//! Economy settlement: removes the enemies defeated this tick and
//! credits their rewards to the player in one batched credit.
//!
//! An enemy is defeated once its hit points are at or below zero.
//! Exactly the defeated enemies' rewards are credited — survivors
//! contribute nothing — and addition is commutative, so the order of
//! crediting carries no meaning.

use vstd::prelude::*;

use crate::entities::{is_alive_spec, Enemy};
use crate::state::GameState;

verus! {

/// The enemies of `enemies` that remain in play, in their original
/// order: exactly those with hit points above zero.
pub open spec fn survivors(enemies: Seq<Enemy>) -> Seq<Enemy>
    decreases enemies.len(),
{
    if enemies.len() == 0 {
        Seq::empty()
    } else if is_alive_spec(enemies.last()) {
        survivors(enemies.drop_last()).push(enemies.last())
    } else {
        survivors(enemies.drop_last())
    }
}

/// The summed reward of exactly the defeated enemies of `enemies`.
pub open spec fn reward_sum(enemies: Seq<Enemy>) -> int
    decreases enemies.len(),
{
    if enemies.len() == 0 {
        0
    } else {
        reward_sum(enemies.drop_last()) + if is_alive_spec(enemies.last()) {
            0
        } else {
            enemies.last().enemy_type.reward as int
        }
    }
}

/// The batched credit is nonnegative and at most one maximal reward per
/// enemy.
pub proof fn lemma_reward_sum_bounds(enemies: Seq<Enemy>)
    ensures
        0 <= reward_sum(enemies) <= enemies.len() * (u32::MAX as int),
    decreases enemies.len(),
{
    if enemies.len() > 0 {
        lemma_reward_sum_bounds(enemies.drop_last());
    }
}

/// Economy conservation law, the survivors' side: a tick in which no
/// enemy was defeated credits nothing and removes nobody — only the
/// defeated enemies' rewards are ever counted.
pub proof fn lemma_settlement_ignores_survivors(enemies: Seq<Enemy>)
    requires
        forall|i: int| 0 <= i < enemies.len() ==> is_alive_spec(#[trigger] enemies[i]),
    ensures
        reward_sum(enemies) == 0,
        survivors(enemies) == enemies,
    decreases enemies.len(),
{
    if enemies.len() > 0 {
        lemma_settlement_ignores_survivors(enemies.drop_last());
        assert(survivors(enemies.drop_last()).push(enemies.last()) =~= enemies);
    }
}

/// One tick of settlement: every defeated enemy leaves the map and the
/// player is credited the sum of exactly those enemies' rewards.
pub fn settle(state: &mut GameState)
    requires
        old(state).resources + reward_sum(old(state).enemies@) <= i64::MAX,
    ensures
        final(state).enemies@ == survivors(old(state).enemies@),
        final(state).resources == old(state).resources + reward_sum(old(state).enemies@),
        final(state).towers@ == old(state).towers@,
        final(state).lives == old(state).lives,
        final(state).camera_position == old(state).camera_position,
{
    let n: usize = state.enemies.len();
    let mut kept: Vec<Enemy> = Vec::new();
    let mut credit: i128 = 0;
    let mut i: usize = 0;
    #[verifier::loop_isolation(false)]
    while i < n
        invariant
            i <= n,
            state.enemies@ == old(state).enemies@,
            kept@ == survivors(old(state).enemies@.take(i as int)),
            credit == reward_sum(old(state).enemies@.take(i as int)),
            0 <= credit,
        decreases n - i,
    {
        proof {
            lemma_reward_sum_bounds(old(state).enemies@.take(i as int));
            assert(old(state).enemies@.take(i as int + 1).drop_last() =~= old(
                state,
            ).enemies@.take(i as int));
        }
        let e = &state.enemies[i];
        if e.is_alive() {
            kept.push(e.clone());
        } else {
            credit = credit + (e.enemy_type.reward as i128);
        }
        i = i + 1;
    }
    proof {
        assert(old(state).enemies@.take(n as int) =~= old(state).enemies@);
        lemma_reward_sum_bounds(old(state).enemies@);
    }
    state.enemies = kept;
    let settled: i128 = (state.resources as i128) + credit;
    state.resources = settled as i64;
}

} // verus!
