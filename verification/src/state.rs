//! The authoritative snapshot of a session: resources, lives, towers,
//! enemies and the camera focus, plus the out-of-band commands that
//! mutate it (tower placement and camera movement).

use vstd::prelude::*;

use crate::catalog::TowerType;
use crate::entities::{Enemy, Tower};
use crate::geometry::Point;

verus! {

/// Resources the player holds when a session begins.
pub const STARTING_RESOURCES: i64 = 100;

/// Lives the player holds when a session begins.
pub const STARTING_LIVES: i32 = 10;

/// A placement was attempted without enough resources; the state is
/// left untouched and the caller decides how to surface it.
#[derive(Clone, Copy, PartialEq, Eq, Structural, Debug)]
pub struct InsufficientResources;

/// The aggregate game state, exclusively owned by the simulation loop.
///
/// `resources` is never driven negative by the core: placement refuses
/// rather than overdraw. `lives` going to zero or below is a terminal
/// signal, not a clamped invariant; no rule in the core decrements it.
/// The order of `towers` and `enemies` is insertion order and carries
/// no meaning for the rules themselves.
#[derive(Debug)]
pub struct GameState {
    pub resources: i64,
    pub lives: i32,
    pub towers: Vec<Tower>,
    pub enemies: Vec<Enemy>,
    pub camera_position: Point,
}

impl GameState {
    /// A fresh session: starting resources and lives, an empty map, the
    /// camera at the origin.
    pub fn new() -> (s: GameState)
        ensures
            s.resources == STARTING_RESOURCES,
            s.lives == STARTING_LIVES,
            s.towers@ == Seq::<Tower>::empty(),
            s.enemies@ == Seq::<Enemy>::empty(),
            s.camera_position == (Point { x: 0, y: 0 }),
    {
        let towers: Vec<Tower> = Vec::new();
        let enemies: Vec<Enemy> = Vec::new();
        GameState {
            resources: STARTING_RESOURCES,
            lives: STARTING_LIVES,
            towers,
            enemies,
            camera_position: Point::new(0, 0),
        }
    }

    /// Places one tower of the given kind at the camera position,
    /// debiting exactly its cost — or refuses, leaving the state
    /// untouched, when the resources do not cover the cost.
    pub fn place_tower(&mut self, tower_type: &TowerType) -> (r: Result<
        (),
        InsufficientResources,
    >)
        ensures
            old(self).resources >= tower_type.cost ==> {
                &&& r is Ok
                &&& final(self).resources == old(self).resources - tower_type.cost
                &&& final(self).towers@ == old(self).towers@.push(
                    Tower { position: old(self).camera_position, tower_type: *tower_type },
                )
            },
            old(self).resources < tower_type.cost ==> {
                &&& r is Err
                &&& final(self).resources == old(self).resources
                &&& final(self).towers@ == old(self).towers@
            },
            final(self).enemies@ == old(self).enemies@,
            final(self).lives == old(self).lives,
            final(self).camera_position == old(self).camera_position,
    {
        if self.resources >= tower_type.cost as i64 {
            self.towers.push(Tower::new(self.camera_position, tower_type.clone()));
            self.resources = self.resources - tower_type.cost as i64;
            Ok(())
        } else {
            Err(InsufficientResources)
        }
    }

    /// Shifts the camera focus by the given offsets.
    pub fn move_camera(&mut self, dx: i32, dy: i32)
        requires
            i32::MIN <= old(self).camera_position.x + dx <= i32::MAX,
            i32::MIN <= old(self).camera_position.y + dy <= i32::MAX,
        ensures
            final(self).camera_position == (Point {
                x: (old(self).camera_position.x + dx) as i32,
                y: (old(self).camera_position.y + dy) as i32,
            }),
            final(self).resources == old(self).resources,
            final(self).lives == old(self).lives,
            final(self).towers@ == old(self).towers@,
            final(self).enemies@ == old(self).enemies@,
    {
        self.camera_position.x = self.camera_position.x + dx;
        self.camera_position.y = self.camera_position.y + dy;
    }
}

} // verus!
