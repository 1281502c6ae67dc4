//! The session aggregate: the game state together with the two fixed
//! catalogs, and the tick that advances everything by one frame.
//!
//! A tick runs the systems in a fixed order — spawning, movement,
//! combat, settlement, evaluation — each reading and mutating the one
//! shared state. Placement runs out-of-band, between ticks.

use vstd::prelude::*;

use crate::catalog::{check_catalogs, ConfigurationError, EnemyType, TowerType};
use crate::combat::{damage_from, damaged_all, resolve};
use crate::economy::{reward_sum, settle, survivors};
use crate::entities::{Enemy, Tower};
use crate::movement::{advance_all, moved_all};
use crate::outcome::{evaluate, outcome_of, Outcome};
use crate::spawner::{spawn, spawned_wave};
use crate::state::GameState;

verus! {

/// The enemies after the spawn step of a tick: the live ones plus the
/// freshly spawned wave.
pub open spec fn enemies_after_spawn(enemies: Seq<Enemy>, types: Seq<EnemyType>) -> Seq<Enemy> {
    enemies + spawned_wave(enemies.len(), types)
}

/// The enemies after the spawn and movement steps of a tick.
pub open spec fn enemies_after_movement(
    enemies: Seq<Enemy>,
    types: Seq<EnemyType>,
    elapsed: u32,
) -> Seq<Enemy> {
    moved_all(enemies_after_spawn(enemies, types), elapsed)
}

/// The enemies after the spawn, movement and combat steps of a tick,
/// defeated ones still included: settlement removes them.
pub open spec fn enemies_after_combat(
    enemies: Seq<Enemy>,
    towers: Seq<Tower>,
    types: Seq<EnemyType>,
    elapsed: u32,
) -> Seq<Enemy> {
    damaged_all(enemies_after_movement(enemies, types, elapsed), towers)
}

impl GameState {
    /// The spawn and movement steps of one tick: appends the wave for
    /// the current live count, then marches every enemy — the fresh
    /// ones included — toward the base.
    pub fn update(&mut self, enemy_types: &Vec<EnemyType>, elapsed: u32)
        requires
            enemy_types@.len() > 0,
            forall|i: int|
                0 <= i < enemies_after_spawn(old(self).enemies@, enemy_types@).len()
                    ==> i32::MIN <= (#[trigger] enemies_after_spawn(
                    old(self).enemies@,
                    enemy_types@,
                )[i]).position.x - enemies_after_spawn(
                    old(self).enemies@,
                    enemy_types@,
                )[i].enemy_type.speed * elapsed,
        ensures
            final(self).enemies@ == enemies_after_movement(
                old(self).enemies@,
                enemy_types@,
                elapsed,
            ),
            final(self).towers@ == old(self).towers@,
            final(self).resources == old(self).resources,
            final(self).lives == old(self).lives,
            final(self).camera_position == old(self).camera_position,
    {
        spawn(self, enemy_types);
        proof {
            assert forall|i: int|
                0 <= i < self.enemies@.len() implies i32::MIN <= (
            #[trigger] self.enemies@[i]).position.x - self.enemies@[i].enemy_type.speed
                * elapsed by {
                assert(self.enemies@[i] == enemies_after_spawn(
                    old(self).enemies@,
                    enemy_types@,
                )[i]);
            }
        }
        advance_all(self, elapsed);
    }
}

/// One full session: the authoritative state and the two catalogs,
/// which a successful construction guarantees non-empty.
#[derive(Debug)]
pub struct Game {
    pub state: GameState,
    pub tower_types: Vec<TowerType>,
    pub enemy_types: Vec<EnemyType>,
}

impl Game {
    /// Both catalogs are non-empty; established at construction and
    /// preserved by every tick.
    pub open spec fn wf(self) -> bool {
        self.tower_types@.len() > 0 && self.enemy_types@.len() > 0
    }

    /// Begins a session with a fresh state, or refuses with a
    /// `ConfigurationError` exactly when either catalog is empty.
    pub fn new(tower_types: Vec<TowerType>, enemy_types: Vec<EnemyType>) -> (r: Result<
        Game,
        ConfigurationError,
    >)
        ensures
            r is Ok <==> (tower_types@.len() > 0 && enemy_types@.len() > 0),
            r matches Ok(g) ==> {
                &&& g.wf()
                &&& g.tower_types@ == tower_types@
                &&& g.enemy_types@ == enemy_types@
                &&& g.state.resources == crate::state::STARTING_RESOURCES
                &&& g.state.lives == crate::state::STARTING_LIVES
                &&& g.state.towers@ == Seq::<Tower>::empty()
                &&& g.state.enemies@ == Seq::<Enemy>::empty()
                &&& g.state.camera_position == (crate::geometry::Point { x: 0, y: 0 })
            },
    {
        match check_catalogs(&tower_types, &enemy_types) {
            Ok(()) => Ok(Game { state: GameState::new(), tower_types, enemy_types }),
            Err(e) => Err(e),
        }
    }

    /// One full simulation tick: spawn the wave, march every enemy,
    /// resolve combat, settle the economy, and report the outcome.
    ///
    /// The contract pins every piece of the new state: the surviving
    /// enemies are exactly the post-combat ones with hit points above
    /// zero, the resources grew by exactly the defeated enemies'
    /// rewards, and nothing in the tick touches the towers, the lives
    /// or the camera.
    pub fn update(&mut self, elapsed: u32) -> (o: Outcome)
        requires
            old(self).wf(),
            forall|i: int|
                0 <= i < enemies_after_spawn(old(self).state.enemies@, old(self).enemy_types@).len()
                    ==> i32::MIN <= (#[trigger] enemies_after_spawn(
                    old(self).state.enemies@,
                    old(self).enemy_types@,
                )[i]).position.x - enemies_after_spawn(
                    old(self).state.enemies@,
                    old(self).enemy_types@,
                )[i].enemy_type.speed * elapsed,
            forall|i: int|
                0 <= i < enemies_after_movement(
                    old(self).state.enemies@,
                    old(self).enemy_types@,
                    elapsed,
                ).len() ==> i64::MIN <= (#[trigger] enemies_after_movement(
                    old(self).state.enemies@,
                    old(self).enemy_types@,
                    elapsed,
                )[i]).hit_points - damage_from(
                    old(self).state.towers@,
                    enemies_after_movement(
                        old(self).state.enemies@,
                        old(self).enemy_types@,
                        elapsed,
                    )[i].position,
                ),
            old(self).state.resources + reward_sum(
                enemies_after_combat(
                    old(self).state.enemies@,
                    old(self).state.towers@,
                    old(self).enemy_types@,
                    elapsed,
                ),
            ) <= i64::MAX,
        ensures
            final(self).state.enemies@ == survivors(
                enemies_after_combat(
                    old(self).state.enemies@,
                    old(self).state.towers@,
                    old(self).enemy_types@,
                    elapsed,
                ),
            ),
            final(self).state.resources == old(self).state.resources + reward_sum(
                enemies_after_combat(
                    old(self).state.enemies@,
                    old(self).state.towers@,
                    old(self).enemy_types@,
                    elapsed,
                ),
            ),
            final(self).state.towers@ == old(self).state.towers@,
            final(self).state.lives == old(self).state.lives,
            final(self).state.camera_position == old(self).state.camera_position,
            final(self).tower_types@ == old(self).tower_types@,
            final(self).enemy_types@ == old(self).enemy_types@,
            final(self).wf(),
            o == outcome_of(final(self).state.enemies@, final(self).state.lives),
    {
        self.state.update(&self.enemy_types, elapsed);
        resolve(&mut self.state);
        settle(&mut self.state);
        evaluate(&self.state)
    }
}

} // verus!
