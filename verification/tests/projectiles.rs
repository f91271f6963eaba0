use tileworld::coruja::{Ball, Coruja};
use tileworld::enemies::Enemies;
use tileworld::geom::Vec2;
use tileworld::map::TileMap;
use tileworld::player::Player;

const CELL: i64 = 90_000;

fn open_grid(w: usize, h: usize, wall: bool) -> TileMap {
    let mut text = String::new();
    for _ in 0..h {
        text.push_str(&"0".repeat(w));
        text.push('\n');
    }
    TileMap::from_bytes(text.as_bytes(), CELL, wall).unwrap()
}

#[test]
fn ball_flies_straight_ignoring_tiles() {
    let mut b = Ball::new(Vec2::new(0, 0), Vec2::new(5000, -2000));
    b.update(100);
    b.update(100);
    b.update(100);
    assert_eq!(b.pos.x, 15_000);
    assert_eq!(b.pos.y, -6_000);
    assert!(!b.die);
}

#[test]
fn ball_expires_strictly_after_its_ceiling() {
    let mut b = Ball::new(Vec2::new(0, 0), Vec2::new(5000, 0));
    for _ in 0..100 {
        b.update(600);
    }
    // exactly at the ceiling the ball still lives
    assert_eq!(b.time, 60_000);
    assert!(!b.die);
    b.update(600);
    assert!(b.die);
}

#[test]
fn spawn_fires_once_interval_passes_and_cooldown_lifted() {
    let mut walls = open_grid(20, 20, true);
    let floors = open_grid(20, 20, false);
    let mut c = Coruja::new(Vec2::new(10 * CELL, 10 * CELL), 2000, 0);
    c.cooldown = false;
    c.update(&mut walls, &floors, 1000, Vec2::new(5000, 0));
    assert_eq!(c.balls.len(), 0);
    assert_eq!(c.time, 1000);
    c.update(&mut walls, &floors, 1000, Vec2::new(5000, 0));
    // 2000 ticks exceed the spawn interval: one ball, timer reset
    assert_eq!(c.balls.len(), 1);
    assert_eq!(c.time, 0);
    assert_eq!(c.balls[0].velocity.x, 5000);
    assert_eq!(c.balls[0].velocity.y, 0);
    // the newborn already flew its first step
    assert_eq!(c.balls[0].pos.x, 10 * CELL + 5000);
    assert_eq!(c.balls[0].time, 1000);
}

#[test]
fn engaged_cooldown_never_spawns() {
    let mut walls = open_grid(20, 20, true);
    let floors = open_grid(20, 20, false);
    let mut c = Coruja::new(Vec2::new(10 * CELL, 10 * CELL), 2000, 0);
    assert!(c.cooldown);
    for _ in 0..10 {
        c.update(&mut walls, &floors, 1000, Vec2::new(5000, 0));
    }
    assert_eq!(c.balls.len(), 0);
}

#[test]
fn expired_balls_are_purged_same_frame() {
    let mut walls = open_grid(20, 20, true);
    let floors = open_grid(20, 20, false);
    let mut c = Coruja::new(Vec2::new(10 * CELL, 10 * CELL), 2000, 0);
    let mut b = Ball::new(Vec2::new(10 * CELL, 10 * CELL), Vec2::new(1000, 0));
    b.time = 59_000;
    c.balls.push(b);
    let mut fresh = Ball::new(Vec2::new(10 * CELL, 10 * CELL), Vec2::new(2000, 0));
    fresh.time = 10;
    c.balls.push(fresh);
    c.update(&mut walls, &floors, 1801, Vec2::new(0, 0));
    // the stale ball passed the ceiling and left; the fresh one stays
    assert_eq!(c.balls.len(), 1);
    assert_eq!(c.balls[0].velocity.x, 2000);
    assert!(!c.balls[0].die);
}

#[test]
fn wander_keeps_intent_within_jitter_range() {
    let mut walls = open_grid(20, 20, true);
    let floors = open_grid(20, 20, false);
    let mut c = Coruja::new(Vec2::new(10 * CELL, 10 * CELL), 2000, 4000);
    for _ in 0..50 {
        c.movement(&mut walls, &floors);
        assert!(-1 <= c.dir.x && c.dir.x <= 1);
        assert!(-1 <= c.dir.y && c.dir.y <= 1);
    }
}

#[test]
fn far_owl_switches_to_hurt_animation() {
    let mut walls = open_grid(20, 20, true);
    let floors = open_grid(20, 20, false);
    let player = Player::new(Vec2::new(0, 0), 2000, 4000);
    let c = Coruja::new(Vec2::new(10 * CELL, 10 * CELL), 2000, 0);
    let mut enemies = Enemies { corujas: vec![c] };
    let vels = vec![Vec2::new(0, 0)];
    enemies.update(&mut walls, &floors, &player, 100, &vels);
    assert_eq!(enemies.len(), 1);
    assert_eq!(enemies.corujas[0].sprite.cur_animation, 2);
}
