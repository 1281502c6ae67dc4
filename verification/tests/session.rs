use tower_defense::catalog::{EnemyType, TowerType};
use tower_defense::combat::{resolve, total_damage_at};
use tower_defense::economy::settle;
use tower_defense::entities::{Enemy, Tower};
use tower_defense::game::Game;
use tower_defense::geometry::Point;
use tower_defense::outcome::{evaluate, Outcome};
use tower_defense::state::GameState;

fn goblin() -> EnemyType {
    EnemyType { name: String::from("Goblin"), max_hit_points: 10, speed: 2, reward: 20 }
}

fn tower_kind(damage: u32, range: u32) -> TowerType {
    TowerType { name: String::from("Archer Tower"), cost: 50, damage, range, rate_of_fire: 1 }
}

fn enemy_at(x: i32, y: i32, hit_points: i64) -> Enemy {
    let mut e = Enemy::new(goblin());
    e.position = Point::new(x, y);
    e.hit_points = hit_points;
    e
}

fn tower_at(x: i32, y: i32, damage: u32, range: u32) -> Tower {
    Tower::new(Point::new(x, y), tower_kind(damage, range))
}

#[test]
fn range_boundary_is_strict() {
    // An enemy exactly at distance == range takes no damage; one a unit
    // closer takes the tower's full damage.
    let towers = vec![tower_at(0, 0, 5, 5)];
    assert_eq!(total_damage_at(&towers, &Point::new(5, 0)), 0);
    assert_eq!(total_damage_at(&towers, &Point::new(3, 4)), 0);
    assert_eq!(total_damage_at(&towers, &Point::new(4, 0)), 5);
    assert_eq!(total_damage_at(&towers, &Point::new(3, 3)), 5);
}

#[test]
fn damage_stacks_across_towers() {
    let towers = vec![tower_at(0, 0, 5, 10), tower_at(6, 0, 7, 10), tower_at(100, 100, 9, 10)];
    // A point in range of the first two towers but far from the third.
    assert_eq!(total_damage_at(&towers, &Point::new(3, 0)), 12);
}

#[test]
fn resolve_damages_every_enemy_in_range() {
    let mut s = GameState::new();
    s.towers.push(tower_at(0, 0, 5, 10));
    s.enemies.push(enemy_at(1, 0, 10));
    s.enemies.push(enemy_at(-2, 0, 10));
    s.enemies.push(enemy_at(50, 0, 10));
    resolve(&mut s);
    assert_eq!(s.enemies[0].hit_points, 5);
    assert_eq!(s.enemies[1].hit_points, 5);
    assert_eq!(s.enemies[2].hit_points, 10);
    // Positions are untouched by combat.
    assert_eq!(s.enemies[0].position, Point::new(1, 0));
}

#[test]
fn repeated_resolution_is_deterministic() {
    // Without movement in between, each resolution applies the same
    // damage: it is a function of the layout alone.
    let mut s = GameState::new();
    s.towers.push(tower_at(0, 0, 3, 10));
    s.towers.push(tower_at(4, 0, 4, 10));
    s.enemies.push(enemy_at(2, 0, 100));
    resolve(&mut s);
    assert_eq!(s.enemies[0].hit_points, 93);
    resolve(&mut s);
    assert_eq!(s.enemies[0].hit_points, 86);
    resolve(&mut s);
    assert_eq!(s.enemies[0].hit_points, 79);
}

#[test]
fn settlement_credits_exactly_the_defeated() {
    let mut s = GameState::new();
    s.resources = 10;
    let mut dead_goblin = enemy_at(1, 0, 0);
    dead_goblin.enemy_type.reward = 20;
    let mut dead_orc = enemy_at(2, 0, -3);
    dead_orc.enemy_type.reward = 30;
    let mut survivor = enemy_at(3, 0, 1);
    survivor.enemy_type.reward = 1000;
    s.enemies.push(dead_goblin);
    s.enemies.push(survivor);
    s.enemies.push(dead_orc);
    settle(&mut s);
    // 10 + 20 + 30, and not the survivor's 1000.
    assert_eq!(s.resources, 60);
    assert_eq!(s.enemies.len(), 1);
    assert_eq!(s.enemies[0].hit_points, 1);
    assert_eq!(s.enemies[0].position, Point::new(3, 0));
}

#[test]
fn settlement_with_no_defeated_changes_nothing() {
    let mut s = GameState::new();
    s.enemies.push(enemy_at(1, 0, 4));
    settle(&mut s);
    assert_eq!(s.resources, 100);
    assert_eq!(s.enemies.len(), 1);
}

#[test]
fn placement_is_gated_by_cost() {
    let mut s = GameState::new();
    assert_eq!(s.resources, 100);

    // Too expensive: refused, nothing changes.
    let pricey = TowerType { cost: 101, ..tower_kind(5, 100) };
    assert!(s.place_tower(&pricey).is_err());
    assert_eq!(s.resources, 100);
    assert_eq!(s.towers.len(), 0);

    // Affordable: appended at the camera position, cost debited exactly.
    s.move_camera(7, -2);
    let affordable = tower_kind(5, 100);
    assert!(s.place_tower(&affordable).is_ok());
    assert_eq!(s.resources, 50);
    assert_eq!(s.towers.len(), 1);
    assert_eq!(s.towers[0].position, Point::new(7, -2));
    assert_eq!(s.towers[0].tower_type.damage, 5);

    // A second placement of the same kind exactly exhausts the purse.
    assert!(s.place_tower(&affordable).is_ok());
    assert_eq!(s.resources, 0);
    assert_eq!(s.towers.len(), 2);

    // And a third is refused: the purse never goes negative.
    assert!(s.place_tower(&affordable).is_err());
    assert_eq!(s.resources, 0);
    assert_eq!(s.towers.len(), 2);
}

#[test]
fn evaluation_wins_on_empty_map() {
    let s = GameState::new();
    assert_eq!(evaluate(&s), Outcome::Win);
}

#[test]
fn evaluation_prefers_win_over_loss() {
    let mut s = GameState::new();
    s.lives = 0;
    assert_eq!(evaluate(&s), Outcome::Win);
    s.lives = -3;
    assert_eq!(evaluate(&s), Outcome::Win);
}

#[test]
fn evaluation_loses_only_without_lives() {
    let mut s = GameState::new();
    s.enemies.push(enemy_at(1, 0, 5));
    assert_eq!(evaluate(&s), Outcome::Ongoing);
    s.lives = 0;
    assert_eq!(evaluate(&s), Outcome::Loss);
    s.lives = -1;
    assert_eq!(evaluate(&s), Outcome::Loss);
}

#[test]
fn game_construction_validates_catalogs() {
    assert!(Game::new(vec![tower_kind(5, 100)], Vec::new()).is_err());
    assert!(Game::new(Vec::new(), vec![goblin()]).is_err());
    let game = Game::new(vec![tower_kind(5, 100)], vec![goblin()]).unwrap();
    assert_eq!(game.state.resources, 100);
    assert_eq!(game.state.lives, 10);
    assert!(game.state.towers.is_empty());
    assert!(game.state.enemies.is_empty());
}

#[test]
fn full_session_scenario() {
    // Start: 100 resources, 10 lives, no enemies. One enemy kind with
    // 10 hit points; one free tower kind with damage 5 and range 100.
    let free_tower = TowerType { cost: 0, ..tower_kind(5, 100) };
    let mut game = Game::new(vec![free_tower.clone()], vec![goblin()]).unwrap();

    // Spawn tick with no movement: the wave formula yields one enemy
    // with full hit points at the origin.
    game.state.update(&game.enemy_types.clone(), 0);
    assert_eq!(game.state.enemies.len(), 1);
    assert_eq!(game.state.enemies[0].hit_points, 10);
    assert_eq!(game.state.enemies[0].position, Point::new(0, 0));

    // Place the tower at distance 0 from the enemy.
    assert!(game.state.place_tower(&free_tower).is_ok());
    assert_eq!(game.state.resources, 100);

    // First resolution: hit points drop to 5, the enemy survives.
    resolve(&mut game.state);
    assert_eq!(game.state.enemies[0].hit_points, 5);
    assert!(game.state.enemies[0].is_alive());

    // Second resolution: hit points reach 0.
    resolve(&mut game.state);
    assert_eq!(game.state.enemies[0].hit_points, 0);
    assert!(!game.state.enemies[0].is_alive());

    // Settlement removes the enemy and credits its reward.
    settle(&mut game.state);
    assert!(game.state.enemies.is_empty());
    assert_eq!(game.state.resources, 100 + 20);

    // Evaluation: the map is empty, the player wins.
    assert_eq!(evaluate(&game.state), Outcome::Win);
    assert_eq!(game.state.lives, 10);
}

#[test]
fn full_tick_composes_the_systems() {
    // One Game::update: spawn one goblin at the origin, march it to
    // x == -2, the tower at the origin still reaches it (4 < 100^2),
    // damage 10 defeats it, settlement credits 20, the map is empty
    // again: a win.
    let mut game = Game::new(vec![tower_kind(10, 100)], vec![goblin()]).unwrap();
    game.state.towers.push(tower_at(0, 0, 10, 100));
    let outcome = game.update(1);
    assert_eq!(outcome, Outcome::Win);
    assert!(game.state.enemies.is_empty());
    assert_eq!(game.state.resources, 120);
    assert_eq!(game.state.lives, 10);

    // With a weaker tower the same tick leaves the goblin alive.
    let mut game = Game::new(vec![tower_kind(3, 100)], vec![goblin()]).unwrap();
    game.state.towers.push(tower_at(0, 0, 3, 100));
    let outcome = game.update(1);
    assert_eq!(outcome, Outcome::Ongoing);
    assert_eq!(game.state.enemies.len(), 1);
    assert_eq!(game.state.enemies[0].hit_points, 7);
    assert_eq!(game.state.enemies[0].position, Point::new(-2, 0));
    assert_eq!(game.state.resources, 100);
}
