//! Immutable template records: the kinds of towers the player can build
//! and the kinds of enemies that can enter the map.
//!
//! Both catalogs are fixed at session start and must be non-empty; an
//! empty catalog is a configuration fault that aborts initialization.

use vstd::prelude::*;

verus! {

/// A buildable kind of tower. Created once at startup and never mutated.
///
/// `rate_of_fire` is carried by the catalog but not consulted by combat
/// resolution: damage is applied every tick to every enemy in range,
/// with no cooldown. That matches the observed behaviour of the game
/// and is kept deliberately.
#[derive(Debug, PartialEq, Eq)]
pub struct TowerType {
    pub name: String,
    /// Price in resources to place one tower of this kind.
    pub cost: u32,
    /// Damage dealt to each in-range enemy on every tick.
    pub damage: u32,
    /// Range in world units; an enemy strictly closer than this is hit.
    pub range: u32,
    /// Shots per time unit. Stored for the catalog, unused by combat.
    pub rate_of_fire: u32,
}

/// A spawnable kind of enemy. Created once at startup and never mutated.
#[derive(Debug, PartialEq, Eq)]
pub struct EnemyType {
    pub name: String,
    /// Hit points a fresh enemy of this kind starts with.
    pub max_hit_points: u32,
    /// Distance marched along the negative x-axis per time unit.
    pub speed: u32,
    /// Resources credited to the player when this enemy is defeated.
    pub reward: u32,
}

impl Clone for TowerType {
    fn clone(&self) -> (r: Self)
        ensures
            r == *self,
    {
        TowerType {
            name: self.name.clone(),
            cost: self.cost,
            damage: self.damage,
            range: self.range,
            rate_of_fire: self.rate_of_fire,
        }
    }
}

impl Clone for EnemyType {
    fn clone(&self) -> (r: Self)
        ensures
            r == *self,
    {
        EnemyType {
            name: self.name.clone(),
            max_hit_points: self.max_hit_points,
            speed: self.speed,
            reward: self.reward,
        }
    }
}

/// An empty catalog was supplied at startup; the session cannot begin.
#[derive(Clone, Copy, PartialEq, Eq, Structural, Debug)]
pub struct ConfigurationError;

/// Checks once, at game start, that both catalogs are non-empty, so that
/// spawning and placement can rely on it for the rest of the session.
pub fn check_catalogs(tower_types: &Vec<TowerType>, enemy_types: &Vec<EnemyType>) -> (r: Result<
    (),
    ConfigurationError,
>)
    ensures
        r is Ok <==> (tower_types@.len() > 0 && enemy_types@.len() > 0),
{
    if tower_types.len() > 0 && enemy_types.len() > 0 {
        Ok(())
    } else {
        Err(ConfigurationError)
    }
}

} // verus!
