use tileworld::camera::Camera;
use tileworld::enemies::Enemies;
use tileworld::geom::{Dir, Vec2};
use tileworld::map::TileMap;
use tileworld::player::{Input, Player};
use tileworld::world::World;

const CELL: i64 = 90_000;
const DT60: i64 = 100;

fn plain_grid(w: usize, h: usize, wall: bool) -> TileMap {
    let mut text = String::new();
    for _ in 0..h {
        text.push_str(&"0".repeat(w));
        text.push('\n');
    }
    TileMap::from_bytes(text.as_bytes(), CELL, wall).unwrap()
}

fn base_camera() -> Camera {
    Camera {
        pos: Vec2::new(90_000, 90_000),
        zoom: 1000,
        speed: Vec2::new(0, 0),
        speed_limit: Vec2::new(50_000, 20_000),
    }
}

fn idle_input() -> Input {
    Input {
        up: false,
        down: false,
        left: false,
        right: false,
        modifier: false,
        attack_held: false,
        attack_pressed: false,
    }
}

#[test]
fn camera_velocity_never_exceeds_its_limits() {
    let mut cam = base_camera();
    let mut p = Player::new(Vec2::new(5 * CELL, 5 * CELL), 2000, 8000);
    p.dir = Dir { x: 1, y: 1 };
    for _ in 0..60 {
        cam.update(&p, DT60, 1_280_000, 720_000);
        assert!(cam.speed.x.abs() <= 50_000);
        assert!(cam.speed.y.abs() <= 20_000);
    }
    // under sustained full input the velocity sits pinned at the limit
    assert_eq!(cam.speed.x, -50_000);
    assert_eq!(cam.speed.y, -20_000);
}

#[test]
fn camera_velocity_decays_to_zero_without_overshoot() {
    let mut cam = base_camera();
    let mut p = Player::new(Vec2::new(5 * CELL, 5 * CELL), 2000, 8000);
    p.dir = Dir { x: 1, y: 1 };
    for _ in 0..60 {
        cam.update(&p, DT60, 1_280_000, 720_000);
    }
    p.dir = Dir { x: 0, y: 0 };
    for _ in 0..60 {
        cam.update(&p, DT60, 1_280_000, 720_000);
        assert!(cam.speed.x <= 0);
        assert!(cam.speed.y <= 0);
    }
    assert_eq!(cam.speed.x, 0);
    assert_eq!(cam.speed.y, 0);
}

#[test]
fn camera_offset_centres_on_player_midpoint() {
    let mut cam = base_camera();
    let p = Player::new(Vec2::new(0, 0), 2000, 8000);
    cam.update(&p, DT60, 1_280_000, 720_000);
    // -(pos + half box) * zoom + screen centre + velocity
    assert_eq!(cam.pos.x, -26_000 + 640_000);
    assert_eq!(cam.pos.y, -32_000 + 360_000);
}

fn small_world() -> World {
    let walls = plain_grid(20, 20, true);
    let floors = plain_grid(20, 20, false);
    let player = Player::new(Vec2::new(5 * CELL, 5 * CELL), 2000, 4000);
    let coruja = tileworld::coruja::Coruja::new(Vec2::new(10 * CELL, 10 * CELL), 2000, 4000);
    let enemies = Enemies { corujas: vec![coruja] };
    World::new(player, enemies, walls, floors, base_camera())
}

#[test]
fn zero_elapsed_tick_changes_nothing() {
    let mut w = small_world();
    let vels = vec![Vec2::new(0, 0)];
    let mut inp = idle_input();
    inp.right = true;
    inp.attack_pressed = true;

    let player_pos = w.player.pos;
    let cam_pos = w.camera.pos;
    let cam_speed = w.camera.speed;
    let coruja_pos = w.enemies.corujas[0].pos;
    let frame = w.player.sprite.animations[w.player.sprite.cur_animation].cur_frame;
    let floor_time = w.floors.animated[0].time;
    let chest_frame = w.walls.chest.sprite.animations[0].cur_frame;

    w.tick(&inp, 0, 1_280_000, 720_000, &vels);

    assert_eq!(w.player.pos, player_pos);
    assert_eq!(w.camera.pos, cam_pos);
    assert_eq!(w.camera.speed, cam_speed);
    assert_eq!(w.enemies.corujas[0].pos, coruja_pos);
    assert_eq!(
        w.player.sprite.animations[w.player.sprite.cur_animation].cur_frame,
        frame
    );
    assert_eq!(w.floors.animated[0].time, floor_time);
    assert_eq!(w.walls.chest.sprite.animations[0].cur_frame, chest_frame);
}

#[test]
fn tick_moves_player_and_advances_layers() {
    let mut w = small_world();
    let vels = vec![Vec2::new(0, 0)];
    let mut inp = idle_input();
    inp.right = true;
    w.tick(&inp, DT60, 1_280_000, 720_000, &vels);
    assert_eq!(w.player.pos.x, 5 * CELL + 4000);
    assert_eq!(w.floors.animated[0].time, DT60);
    assert_eq!(w.walls.animated[0].time, DT60);
    assert_eq!(w.player.sprite.cur_animation, 1);
}

#[test]
fn camera_limit_holds_across_whole_ticks() {
    let mut w = small_world();
    let vels = vec![Vec2::new(0, 0)];
    let mut inp = idle_input();
    inp.right = true;
    inp.down = true;
    for _ in 0..120 {
        w.tick(&inp, DT60, 1_280_000, 720_000, &vels);
        assert!(w.camera.speed.x.abs() <= w.camera.speed_limit.x);
        assert!(w.camera.speed.y.abs() <= w.camera.speed_limit.y);
    }
}

#[test]
fn chest_reward_reachable_while_enemy_moves() {
    // a chest beside the player, and an idle-footed enemy elsewhere whose
    // empty contact reports must not cancel the player's
    let mut text = String::new();
    for r in 0..20 {
        for c in 0..20 {
            text.push(if r == 1 && c == 1 { '7' } else { '0' });
        }
        text.push('\n');
    }
    let walls = TileMap::from_bytes(text.as_bytes(), CELL, true).unwrap();
    let floors = plain_grid(20, 20, false);
    let player = Player::new(Vec2::new(2 * CELL, CELL), 2000, 4000);
    let coruja = tileworld::coruja::Coruja::new(Vec2::new(10 * CELL, 10 * CELL), 2000, 0);
    let enemies = Enemies { corujas: vec![coruja] };
    let mut w = World::new(player, enemies, walls, floors, base_camera());
    let vels = vec![Vec2::new(0, 0)];
    let mut inp = idle_input();
    inp.left = true;

    // each tick the player presses into the chest; one chest frame per tick
    for _ in 0..4 {
        w.tick(&inp, 1801, 1_280_000, 720_000, &vels);
        assert!(w.walls.chest.sprite.playing);
    }
    assert!(w.walls.chest.reward);
    assert!(!w.walls.chest.skill);

    // contact keeps coming once the reward is taken: the second flag
    w.tick(&inp, 1801, 1_280_000, 720_000, &vels);
    assert!(w.walls.chest.skill);
}

#[test]
fn sword_swing_stops_at_frame_zero_under_held_key() {
    let mut w = small_world();
    let vels = vec![Vec2::new(0, 0)];
    let mut inp = idle_input();
    inp.attack_held = true;
    // at rest the swing sits at frame zero, so a held key stops it at once
    w.tick(&inp, DT60, 1_280_000, 720_000, &vels);
    assert!(!w.player.sword_sprite.playing);
    // a fresh press restarts it
    inp.attack_pressed = true;
    w.tick(&inp, DT60, 1_280_000, 720_000, &vels);
    assert!(w.player.sword_sprite.playing);
}
