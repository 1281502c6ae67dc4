//! Win/loss evaluation, run once per tick after settlement.
//!
//! Win takes precedence: a state with no enemies is a win even when the
//! lives are at or below zero. Nothing in the core ever decrements
//! `lives`, so the loss signal is unreachable through the core's own
//! rules; the check is kept because the state admits externally driven
//! lives and the rule must hold for every state.

use vstd::prelude::*;

use crate::entities::Enemy;
use crate::state::GameState;

verus! {

/// The terminal signal surfaced once per tick.
#[derive(Clone, Copy, PartialEq, Eq, Structural, Debug)]
pub enum Outcome {
    /// The session continues.
    Ongoing,
    /// No enemy remains after settlement.
    Win,
    /// Enemies remain and the player has no lives left.
    Loss,
}

/// The outcome of a post-settlement state: `Win` on an empty map,
/// otherwise `Loss` once lives are at or below zero, otherwise
/// `Ongoing`.
pub open spec fn outcome_of(enemies: Seq<Enemy>, lives: i32) -> Outcome {
    if enemies.len() == 0 {
        Outcome::Win
    } else if lives <= 0 {
        Outcome::Loss
    } else {
        Outcome::Ongoing
    }
}

/// Evaluates the win/loss conditions of a post-settlement state.
pub fn evaluate(state: &GameState) -> (o: Outcome)
    ensures
        o == outcome_of(state.enemies@, state.lives),
{
    if state.enemies.len() == 0 {
        Outcome::Win
    } else if state.lives <= 0 {
        Outcome::Loss
    } else {
        Outcome::Ongoing
    }
}

/// Win condition law: evaluation of any state without enemies returns
/// `Win`, whatever the resources and lives say.
pub proof fn lemma_win_on_empty(enemies: Seq<Enemy>, lives: i32)
    requires
        enemies.len() == 0,
    ensures
        outcome_of(enemies, lives) == Outcome::Win,
{
}

} // verus!
