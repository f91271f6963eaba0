use tileworld::anim::{AnimatedSprite, Animation};

fn sprite(frames: usize, dur: i64, playing: bool) -> AnimatedSprite {
    AnimatedSprite {
        animations: vec![Animation { width: 26, height: 32, frames, cur_frame: 0 }],
        cur_animation: 0,
        dur,
        time: 0,
        playing,
    }
}

#[test]
fn frame_advances_only_past_duration() {
    let mut s = sprite(4, 1200, true);
    s.update(1200);
    assert_eq!(s.animations[0].cur_frame, 0);
    assert_eq!(s.time, 1200);
    s.update(1);
    assert_eq!(s.animations[0].cur_frame, 1);
    assert_eq!(s.time, 1);
}

#[test]
fn remainder_is_carried_not_reset() {
    let mut s = sprite(4, 1200, true);
    s.update(1000);
    assert_eq!(s.time, 1000);
    s.update(500);
    assert_eq!(s.time, 300);
    assert_eq!(s.animations[0].cur_frame, 1);
}

#[test]
fn frame_wraps_to_zero() {
    let mut s = sprite(3, 100, true);
    s.update(101);
    s.update(101);
    assert_eq!(s.animations[0].cur_frame, 2);
    s.update(101);
    assert_eq!(s.animations[0].cur_frame, 0);
}

#[test]
fn paused_sprite_accumulates_time_but_freezes_frame() {
    let mut s = sprite(4, 100, false);
    s.update(150);
    assert_eq!(s.animations[0].cur_frame, 0);
    assert_eq!(s.time, 50);
    s.update(1000);
    assert_eq!(s.animations[0].cur_frame, 0);
}

#[test]
fn source_frame_offset_is_frame_times_width() {
    let mut s = sprite(6, 100, true);
    s.update(101);
    s.update(101);
    s.update(101);
    assert_eq!(s.animations[0].cur_frame, 3);
    assert_eq!(s.animations[0].src_x(), 3 * 26);
}
