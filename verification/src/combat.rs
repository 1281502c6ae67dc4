//! Combat resolution: each tick, every tower damages every enemy that
//! stands strictly inside its range.
//!
//! Damage is immediate and unconditional per tick and per in-range
//! tower — there is no cooldown and no rate-of-fire throttling at this
//! layer, no damage falloff by distance. A tower with several enemies
//! in range damages all of them; an enemy in range of several towers
//! takes damage from each. All applications are plain subtractions, so
//! the order of evaluation cannot change the outcome.

use vstd::prelude::*;

use crate::entities::Enemy;
use crate::entities::Tower;
use crate::geometry::{dist_sq, lemma_square_le, Point};
use crate::state::GameState;

verus! {

/// Whether a point is strictly inside a tower's range. An enemy exactly
/// at distance `range` is out of range: the comparison is strict.
pub open spec fn in_range(t: Tower, p: Point) -> bool {
    dist_sq(t.position, p) < (t.tower_type.range as int) * (t.tower_type.range as int)
}

/// The damage one tower deals per tick to an enemy standing at `p`.
pub open spec fn tower_damage(t: Tower, p: Point) -> int {
    if in_range(t, p) {
        t.tower_type.damage as int
    } else {
        0
    }
}

/// The damage all of `towers` together deal per tick to an enemy at `p`.
pub open spec fn damage_from(towers: Seq<Tower>, p: Point) -> int
    decreases towers.len(),
{
    if towers.len() == 0 {
        0
    } else {
        damage_from(towers.drop_last(), p) + tower_damage(towers.last(), p)
    }
}

/// The total per-tick damage is nonnegative and at most one maximal
/// damage value per tower.
pub proof fn lemma_damage_from_bounds(towers: Seq<Tower>, p: Point)
    ensures
        0 <= damage_from(towers, p) <= towers.len() * (u32::MAX as int),
    decreases towers.len(),
{
    if towers.len() > 0 {
        lemma_damage_from_bounds(towers.drop_last(), p);
    }
}

/// The enemy `e` after one tick of combat against `towers`.
pub open spec fn damaged(e: Enemy, towers: Seq<Tower>) -> Enemy {
    Enemy {
        position: e.position,
        hit_points: (e.hit_points - damage_from(towers, e.position)) as i64,
        enemy_type: e.enemy_type,
    }
}

/// Every enemy of `enemies` after one tick of combat against `towers`.
pub open spec fn damaged_all(enemies: Seq<Enemy>, towers: Seq<Tower>) -> Seq<Enemy> {
    enemies.map_values(|e: Enemy| damaged(e, towers))
}

/// The damage all towers together deal per tick to an enemy at
/// `position`, computed exactly.
pub fn total_damage_at(towers: &Vec<Tower>, position: &Point) -> (d: i128)
    ensures
        d == damage_from(towers@, *position),
        0 <= d,
{
    let n: usize = towers.len();
    let mut d: i128 = 0;
    let mut t: usize = 0;
    #[verifier::loop_isolation(false)]
    while t < n
        invariant
            t <= n,
            d == damage_from(towers@.take(t as int), *position),
            0 <= d,
        decreases n - t,
    {
        proof {
            lemma_damage_from_bounds(towers@.take(t as int), *position);
            assert(towers@.take(t as int + 1).drop_last() =~= towers@.take(t as int));
        }
        let tower = &towers[t];
        let dsq = tower.position.distance_sq_to(position);
        proof {
            lemma_square_le(tower.tower_type.range as int, u32::MAX as int);
        }
        let rsq: i128 = (tower.tower_type.range as i128) * (tower.tower_type.range as i128);
        if dsq < rsq {
            d = d + (tower.tower_type.damage as i128);
        }
        t = t + 1;
    }
    proof {
        assert(towers@.take(n as int) =~= towers@);
    }
    d
}

/// One tick of combat: every enemy's hit points drop by the summed
/// damage of the towers whose range it stands strictly inside.
pub fn resolve(state: &mut GameState)
    requires
        forall|i: int|
            0 <= i < old(state).enemies@.len() ==> i64::MIN <= (#[trigger] old(
                state,
            ).enemies@[i]).hit_points - damage_from(
                old(state).towers@,
                old(state).enemies@[i].position,
            ),
    ensures
        final(state).enemies@ == damaged_all(old(state).enemies@, old(state).towers@),
        final(state).towers@ == old(state).towers@,
        final(state).resources == old(state).resources,
        final(state).lives == old(state).lives,
        final(state).camera_position == old(state).camera_position,
{
    let n: usize = state.enemies.len();
    let mut hit: Vec<Enemy> = Vec::new();
    let mut i: usize = 0;
    #[verifier::loop_isolation(false)]
    while i < n
        invariant
            i <= n,
            state.enemies@ == old(state).enemies@,
            state.towers@ == old(state).towers@,
            hit@.len() == i,
            forall|j: int|
                0 <= j < i ==> hit@[j] == damaged(old(state).enemies@[j], old(state).towers@),
        decreases n - i,
    {
        let mut e = state.enemies[i].clone();
        let d = total_damage_at(&state.towers, &e.position);
        proof {
            lemma_damage_from_bounds(state.towers@, e.position);
        }
        let nh: i128 = (e.hit_points as i128) - d;
        e.hit_points = nh as i64;
        hit.push(e);
        i = i + 1;
    }
    proof {
        assert(hit@ =~= damaged_all(old(state).enemies@, old(state).towers@));
    }
    state.enemies = hit;
}

/// Range boundary law: an enemy exactly at distance `range` takes no
/// damage from that tower — the comparison is strictly less-than —
/// while an enemy strictly inside the range takes the tower's full
/// damage.
pub proof fn lemma_range_boundary(t: Tower, p: Point)
    ensures
        dist_sq(t.position, p) == (t.tower_type.range as int) * (t.tower_type.range as int)
            ==> tower_damage(t, p) == 0,
        dist_sq(t.position, p) < (t.tower_type.range as int) * (t.tower_type.range as int)
            ==> tower_damage(t, p) == t.tower_type.damage,
{
}

/// Combat determinism law: the damage an enemy takes in a tick is a
/// function of the tower layout and its own position alone, so
/// resolving twice without movement in between deals exactly twice the
/// per-tick damage and never touches the position.
pub proof fn lemma_combat_deterministic(e: Enemy, towers: Seq<Tower>)
    requires
        i64::MIN <= e.hit_points - 2 * damage_from(towers, e.position),
    ensures
        damaged(e, towers).position == e.position,
        damaged(damaged(e, towers), towers).hit_points == e.hit_points - 2 * damage_from(
            towers,
            e.position,
        ),
{
    lemma_damage_from_bounds(towers, e.position);
}

} // verus!
