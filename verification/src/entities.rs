//! Live instances on the map: placed towers and moving enemies.

use vstd::prelude::*;

use crate::catalog::{EnemyType, TowerType};
use crate::geometry::Point;

verus! {

/// A placed tower. Exists from placement to the end of the session.
#[derive(Debug)]
pub struct Tower {
    pub position: Point,
    pub tower_type: TowerType,
}

impl Clone for Tower {
    fn clone(&self) -> (r: Self)
        ensures
            r == *self,
    {
        Tower { position: self.position, tower_type: self.tower_type.clone() }
    }
}

impl Tower {
    pub fn new(position: Point, tower_type: TowerType) -> (t: Tower)
        ensures
            t == (Tower { position, tower_type }),
    {
        Tower { position, tower_type }
    }
}

/// A live enemy. Spawned with full hit points at the map origin, moved
/// each tick, damaged by towers, and removed once defeated.
#[derive(Debug)]
pub struct Enemy {
    pub position: Point,
    /// Current hit points; at or below zero the enemy counts as defeated.
    pub hit_points: i64,
    pub enemy_type: EnemyType,
}

/// Where every enemy enters the map.
pub open spec fn spawn_position() -> Point {
    Point { x: 0, y: 0 }
}

/// The enemy that spawning from template `t` produces: full hit points,
/// standing at the spawn position.
pub open spec fn fresh_enemy(t: EnemyType) -> Enemy {
    Enemy { position: spawn_position(), hit_points: t.max_hit_points as i64, enemy_type: t }
}

/// Whether an enemy is still in play.
pub open spec fn is_alive_spec(e: Enemy) -> bool {
    e.hit_points > 0
}

/// The enemy `e` after marching for `elapsed` time units: its x
/// coordinate drops by `speed * elapsed`, nothing else changes.
pub open spec fn moved(e: Enemy, elapsed: u32) -> Enemy {
    Enemy {
        position: Point {
            x: (e.position.x - e.enemy_type.speed * elapsed) as i32,
            y: e.position.y,
        },
        hit_points: e.hit_points,
        enemy_type: e.enemy_type,
    }
}

impl Clone for Enemy {
    fn clone(&self) -> (r: Self)
        ensures
            r == *self,
    {
        Enemy {
            position: self.position,
            hit_points: self.hit_points,
            enemy_type: self.enemy_type.clone(),
        }
    }
}

impl Enemy {
    pub fn new(enemy_type: EnemyType) -> (e: Enemy)
        ensures
            e == fresh_enemy(enemy_type),
    {
        let position = Point::new(0, 0);
        let hit_points: i64 = enemy_type.max_hit_points as i64;
        Enemy { position, hit_points, enemy_type }
    }

    /// Marches the enemy toward the player's base: straight along the
    /// negative x-axis, frame-rate independent through `elapsed`.
    pub fn advance(&mut self, elapsed: u32)
        requires
            i32::MIN <= old(self).position.x - old(self).enemy_type.speed * elapsed,
        ensures
            *final(self) == moved(*old(self), elapsed),
    {
        proof {
            assert((self.enemy_type.speed as int) * (elapsed as int) <= (u32::MAX as int) * (
            u32::MAX as int)) by (nonlinear_arith)
                requires
                    0 <= self.enemy_type.speed <= u32::MAX,
                    0 <= elapsed <= u32::MAX,
            ;
        }
        let delta: u64 = (self.enemy_type.speed as u64) * (elapsed as u64);
        let nx: i128 = (self.position.x as i128) - (delta as i128);
        self.position.x = nx as i32;
    }

    /// Applies `damage` immediate hit points of damage.
    pub fn apply_damage(&mut self, damage: u32)
        requires
            i64::MIN <= old(self).hit_points - damage,
        ensures
            *final(self) == (Enemy {
                hit_points: (old(self).hit_points - damage) as i64,
                ..*old(self)
            }),
    {
        self.hit_points = self.hit_points - (damage as i64);
    }

    /// Whether the enemy is still in play.
    pub fn is_alive(&self) -> (r: bool)
        ensures
            r == is_alive_spec(*self),
    {
        self.hit_points > 0
    }
}

} // verus!
