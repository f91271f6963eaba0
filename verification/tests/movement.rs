use tileworld::camera::Camera;
use tileworld::geom::Vec2;
use tileworld::map::TileMap;
use tileworld::motion::scaled_dir_step;
use tileworld::player::{Input, Player};

const CELL: i64 = 90_000;
const DT60: i64 = 100;

fn zero_grid(w: usize, h: usize, wall: bool) -> TileMap {
    let mut text = String::new();
    for _ in 0..h {
        text.push_str(&"0".repeat(w));
        text.push('\n');
    }
    TileMap::from_bytes(text.as_bytes(), CELL, wall).unwrap()
}

fn camera() -> Camera {
    Camera {
        pos: Vec2::new(90_000, 90_000),
        zoom: 1000,
        speed: Vec2::new(0, 0),
        speed_limit: Vec2::new(50_000, 20_000),
    }
}

fn input(right: bool, left: bool, down: bool, up: bool) -> Input {
    Input {
        up,
        down,
        left,
        right,
        modifier: false,
        attack_held: false,
        attack_pressed: false,
    }
}

#[test]
fn diagonal_axis_speed_is_strictly_slower() {
    let axial = scaled_dir_step(4000, DT60, 1, 0);
    let diagonal = scaled_dir_step(4000, DT60, 1, 1);
    assert_eq!(axial, 4000);
    assert_eq!(diagonal, 2666);
    assert!(diagonal < axial);
}

#[test]
fn ten_frames_right_cover_forty_units() {
    let mut walls = zero_grid(20, 20, true);
    let floors = zero_grid(20, 20, false);
    let mut cam = camera();
    let mut p = Player::new(Vec2::new(5 * CELL, 5 * CELL), 2000, 4000);
    let inp = input(true, false, false, false);
    for _ in 0..10 {
        p.update(&mut cam, &mut walls, &floors, &inp, DT60);
        assert!(!p.flipped);
    }
    assert_eq!(p.pos.x, 5 * CELL + 40_000);
    assert_eq!(p.pos.y, 5 * CELL);
}

#[test]
fn blocked_axis_keeps_coordinate_free_axis_slides() {
    let mut walls = TileMap::from_bytes(b"000\n000\n010\n000\n", CELL, true).unwrap();
    let floors = zero_grid(3, 4, false);
    let mut cam = camera();
    let mut p = Player::new(Vec2::new(2 * CELL, 2 * CELL), 2000, 4000);
    let inp = input(false, true, true, false);
    p.movement(&mut cam, &mut walls, &floors, &inp, DT60);
    assert_eq!(p.pos.x, 2 * CELL);
    assert_eq!(p.pos.y, 2 * CELL + 2666);
}

#[test]
fn hazardous_floor_blocks_like_a_wall() {
    let mut walls = zero_grid(3, 3, true);
    let floors = TileMap::from_bytes(b"000\n060\n000\n", CELL, false).unwrap();
    let mut cam = camera();
    let mut p = Player::new(Vec2::new(2 * CELL, CELL), 2000, 4000);
    let inp = input(false, true, false, false);
    p.movement(&mut cam, &mut walls, &floors, &inp, DT60);
    assert_eq!(p.pos.x, 2 * CELL);
}

#[test]
fn door_opens_permanently_and_blocks_only_its_frame() {
    let mut walls = TileMap::from_bytes(b"000\n050\n060\n000\n", CELL, true).unwrap();
    let floors = zero_grid(3, 4, false);
    let mut cam = camera();
    let mut p = Player::new(Vec2::new(2 * CELL, CELL), 2000, 4000);
    let inp = input(false, true, false, false);
    p.movement(&mut cam, &mut walls, &floors, &inp, DT60);
    // the door blocked the frame it was opened
    assert_eq!(p.pos.x, 2 * CELL);
    // both door cells are now empty for good
    assert_eq!(walls.cell_kind(1, 1), 0);
    assert_eq!(walls.cell_kind(2, 1), 0);
    // a second attempt passes and re-triggers nothing
    p.movement(&mut cam, &mut walls, &floors, &inp, DT60);
    assert_eq!(p.pos.x, 2 * CELL - 4000);
    assert_eq!(walls.cell_kind(1, 1), 0);
    assert_eq!(walls.cell_kind(2, 1), 0);
}

#[test]
fn lower_door_half_opens_its_upper_companion() {
    let mut walls = TileMap::from_bytes(b"000\n050\n060\n000\n", CELL, true).unwrap();
    let floors = zero_grid(3, 4, false);
    let mut cam = camera();
    // approach the lower half of the door
    let mut p = Player::new(Vec2::new(2 * CELL, 2 * CELL - 30_000), 2000, 4000);
    let inp = input(false, true, false, false);
    p.movement(&mut cam, &mut walls, &floors, &inp, DT60);
    assert_eq!(walls.cell_kind(1, 1), 0);
    assert_eq!(walls.cell_kind(2, 1), 0);
}

#[test]
fn chest_contact_plays_then_rewards_then_unlocks_skill() {
    let mut walls = TileMap::from_bytes(b"000\n070\n000\n", CELL, true).unwrap();
    let floors = zero_grid(3, 3, false);
    let mut cam = camera();
    let mut p = Player::new(Vec2::new(2 * CELL, CELL), 2000, 4000);
    let inp = input(false, true, false, false);

    assert!(!walls.chest.reward);
    let touched = p.movement(&mut cam, &mut walls, &floors, &inp, DT60);
    // the chest blocks, and the contact report starts its animation
    assert!(touched);
    assert_eq!(p.pos.x, 2 * CELL);
    walls.chest_contact(touched);
    assert!(walls.chest.sprite.playing);
    assert!(!walls.chest.reward);

    // one full cycle of the five-frame chest animation grants the reward
    for _ in 0..4 {
        walls.update(1801);
    }
    assert!(walls.chest.reward);
    assert_eq!(walls.chest.sprite.animations[0].cur_frame, 0);
    assert!(!walls.chest.skill);

    // contact after collection sets the second flag
    let touched = p.movement(&mut cam, &mut walls, &floors, &inp, DT60);
    assert!(touched);
    walls.chest_contact(touched);
    assert!(walls.chest.skill);
}

#[test]
fn no_contact_freezes_chest_animation() {
    let mut walls = TileMap::from_bytes(b"000\n070\n000\n", CELL, true).unwrap();
    let floors = zero_grid(3, 3, false);
    let mut cam = camera();
    let mut p = Player::new(Vec2::new(2 * CELL, CELL), 2000, 4000);
    let touched = p.movement(&mut cam, &mut walls, &floors, &input(false, true, false, false), DT60);
    walls.chest_contact(touched);
    assert!(walls.chest.sprite.playing);
    // moving away clears the playing flag but keeps the frame
    walls.update(1801);
    let frame = walls.chest.sprite.animations[0].cur_frame;
    let touched = p.movement(&mut cam, &mut walls, &floors, &input(true, false, false, false), DT60);
    assert!(!touched);
    walls.chest_contact(touched);
    assert!(!walls.chest.sprite.playing);
    walls.update(1801);
    assert_eq!(walls.chest.sprite.animations[0].cur_frame, frame);
}

#[test]
fn free_roam_modifier_pans_camera_instead_of_moving() {
    let mut walls = zero_grid(5, 5, true);
    let floors = zero_grid(5, 5, false);
    let mut cam = camera();
    let mut p = Player::new(Vec2::new(2 * CELL, 2 * CELL), 2000, 4000);
    let mut inp = input(true, false, false, false);
    inp.modifier = true;
    let cam_x = cam.pos.x;
    p.movement(&mut cam, &mut walls, &floors, &inp, DT60);
    assert_eq!(p.pos.x, 2 * CELL);
    assert_eq!(cam.pos.x, cam_x - 4000);
    assert_eq!(p.sprite.cur_animation, 0);
}

#[test]
fn facing_follows_last_nonzero_horizontal_intent() {
    let mut walls = zero_grid(5, 5, true);
    let floors = zero_grid(5, 5, false);
    let mut cam = camera();
    let mut p = Player::new(Vec2::new(2 * CELL, 2 * CELL), 2000, 4000);
    p.movement(&mut cam, &mut walls, &floors, &input(false, true, false, false), DT60);
    assert!(p.flipped);
    p.movement(&mut cam, &mut walls, &floors, &input(false, false, true, false), DT60);
    assert!(p.flipped);
    p.movement(&mut cam, &mut walls, &floors, &input(true, false, false, false), DT60);
    assert!(!p.flipped);
}
