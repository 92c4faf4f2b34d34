use player_control::animation::{
    animate_sprite, direction_bucket, flip_x, strip_id, update_texture_atlas_handle,
    AnimationState, AnimationStripSet, AnimationTimer, CatalogError, DirectionBucket,
    MotionState,
};
use player_control::facing::{next_facing, update_sprite_direction, SpriteDirection};
use player_control::input::{get_movement_input, HeldKeys, MovementVector};
use player_control::player::{player_movement, spawn_player};

const CADENCE: u64 = 200_000_000;

fn keys(up: bool, down: bool, left: bool, right: bool) -> HeldKeys {
    HeldKeys { up, down, left, right }
}

fn catalog(counts: Vec<usize>) -> AnimationStripSet {
    AnimationStripSet::new(counts).unwrap()
}

fn length(v: MovementVector) -> f64 {
    let (x, y) = if v.is_diagonal() {
        (v.x as f64 / 2f64.sqrt(), v.y as f64 / 2f64.sqrt())
    } else {
        (v.x as f64, v.y as f64)
    };
    (x * x + y * y).sqrt()
}

#[test]
fn up_and_right_make_a_unit_diagonal() {
    let v = get_movement_input(&keys(true, false, false, true));
    assert_eq!(v, MovementVector { x: 1, y: 1 });
    assert!(v.is_diagonal());
    assert!((length(v) - 1.0).abs() < 1e-9);
}

#[test]
fn every_key_combination_has_length_zero_or_one() {
    for bits in 0u8..16 {
        let k = keys(bits & 1 != 0, bits & 2 != 0, bits & 4 != 0, bits & 8 != 0);
        let v = get_movement_input(&k);
        let len = length(v);
        assert!(len.abs() < 1e-9 || (len - 1.0).abs() < 1e-9);
        assert_eq!(len.abs() < 1e-9, v.is_idle());
    }
}

#[test]
fn opposing_vertical_keys_cancel() {
    let v = get_movement_input(&keys(true, true, false, false));
    assert_eq!(v, MovementVector { x: 0, y: 0 });
    assert!(v.is_idle());
}

#[test]
fn opposing_horizontal_keys_cancel_but_vertical_stays() {
    let v = get_movement_input(&keys(false, true, true, true));
    assert_eq!(v, MovementVector { x: 0, y: -1 });
    assert!(!v.is_diagonal());
}

#[test]
fn no_keys_give_no_movement() {
    assert_eq!(get_movement_input(&keys(false, false, false, false)), MovementVector { x: 0, y: 0 });
}

#[test]
fn each_key_moves_one_axis() {
    assert_eq!(get_movement_input(&keys(true, false, false, false)), MovementVector { x: 0, y: 1 });
    assert_eq!(get_movement_input(&keys(false, true, false, false)), MovementVector { x: 0, y: -1 });
    assert_eq!(get_movement_input(&keys(false, false, true, false)), MovementVector { x: -1, y: 0 });
    assert_eq!(get_movement_input(&keys(false, false, false, true)), MovementVector { x: 1, y: 0 });
}

#[test]
fn facing_left_is_kept_when_up_joins() {
    let mut d = SpriteDirection::Left;
    for _ in 0..5 {
        update_sprite_direction(&mut d, -1, 0);
        assert_eq!(d, SpriteDirection::Left);
    }
    update_sprite_direction(&mut d, -1, 1);
    assert_eq!(d, SpriteDirection::Left);
}

#[test]
fn horizontal_wins_without_hysteresis() {
    assert_eq!(next_facing(SpriteDirection::Down, 1, 1), SpriteDirection::Right);
    assert_eq!(next_facing(SpriteDirection::Up, -1, -1), SpriteDirection::Left);
}

#[test]
fn vertical_decides_when_there_is_no_horizontal_movement() {
    assert_eq!(next_facing(SpriteDirection::Left, 0, 1), SpriteDirection::Up);
    assert_eq!(next_facing(SpriteDirection::Right, 0, -1), SpriteDirection::Down);
}

#[test]
fn facing_up_is_kept_on_up_and_right() {
    assert_eq!(next_facing(SpriteDirection::Up, 1, 1), SpriteDirection::Up);
}

#[test]
fn no_movement_never_turns() {
    for d in [SpriteDirection::Up, SpriteDirection::Down, SpriteDirection::Left, SpriteDirection::Right] {
        assert_eq!(next_facing(d, 0, 0), d);
    }
}

#[test]
fn direction_names() {
    assert_eq!(SpriteDirection::Up.name(), "Up");
    assert_eq!(SpriteDirection::Down.name(), "Down");
    assert_eq!(SpriteDirection::Left.name(), "Left");
    assert_eq!(SpriteDirection::Right.name(), "Right");
}

#[test]
fn strips_by_motion_and_bucket() {
    assert_eq!(strip_id(MotionState::Idle, DirectionBucket::Horizontal), 0);
    assert_eq!(strip_id(MotionState::Idle, DirectionBucket::Up), 1);
    assert_eq!(strip_id(MotionState::Idle, DirectionBucket::Down), 2);
    assert_eq!(strip_id(MotionState::Running, DirectionBucket::Horizontal), 3);
    assert_eq!(strip_id(MotionState::Running, DirectionBucket::Up), 4);
    assert_eq!(strip_id(MotionState::Running, DirectionBucket::Down), 5);
    assert_eq!(direction_bucket(SpriteDirection::Left), DirectionBucket::Horizontal);
    assert_eq!(update_texture_atlas_handle(SpriteDirection::Left, true), 0);
    assert_eq!(update_texture_atlas_handle(SpriteDirection::Right, false), 3);
    assert_eq!(update_texture_atlas_handle(SpriteDirection::Down, false), 5);
}

#[test]
fn flip_only_when_facing_left() {
    assert!(flip_x(SpriteDirection::Left));
    assert!(!flip_x(SpriteDirection::Right));
    assert!(!flip_x(SpriteDirection::Up));
    assert!(!flip_x(SpriteDirection::Down));
}

#[test]
fn catalog_errors() {
    assert!(matches!(AnimationStripSet::new(vec![4, 4, 4]), Err(CatalogError::WrongStripCount)));
    assert!(matches!(AnimationStripSet::new(vec![4, 4, 4, 0, 4, 0]), Err(CatalogError::EmptyStrip(3))));
    let c = catalog(vec![4, 4, 4, 4, 4, 2]);
    assert_eq!(c.frame_count(5), 2);
}

#[test]
fn timer_consumes_whole_cadences() {
    let mut t = AnimationTimer::from_nanos(10);
    assert_eq!(t.tick(25), 2);
    assert_eq!(t.elapsed, 5);
    assert_eq!(t.tick(4), 0);
    assert_eq!(t.tick(1), 1);
    assert_eq!(t.elapsed, 0);
    let mut big = AnimationTimer::from_nanos(1);
    assert_eq!(big.tick(u64::MAX), u64::MAX);
}

#[test]
fn three_cadences_advance_three_frames_however_split() {
    let c = catalog(vec![4, 4, 4, 4, 4, 4]);
    let mut whole = AnimationState::new(CADENCE, 0, &c);
    animate_sprite(&mut whole, &c, 3 * CADENCE);
    assert_eq!(whole.frame_index, 3);

    let mut split = AnimationState::new(CADENCE, 0, &c);
    for dt in [CADENCE / 2, CADENCE, CADENCE / 4, CADENCE + CADENCE / 4] {
        animate_sprite(&mut split, &c, dt);
        assert!(split.frame_index < 4);
    }
    assert_eq!(split, whole);
}

#[test]
fn frame_index_wraps_to_zero() {
    let c = catalog(vec![4, 4, 4, 4, 4, 4]);
    let mut s = AnimationState::new(CADENCE, 2, &c);
    animate_sprite(&mut s, &c, 5 * CADENCE);
    assert_eq!(s.frame_index, 1);
    animate_sprite(&mut s, &c, CADENCE - 1);
    assert_eq!(s.frame_index, 1);
}

#[test]
fn switching_strip_keeps_index_modulo_new_count() {
    let c = catalog(vec![3, 3, 3, 6, 6, 6]);
    let mut s = AnimationState::new(CADENCE, 3, &c);
    animate_sprite(&mut s, &c, 5 * CADENCE);
    assert_eq!(s.frame_index, 5);
    s.select_strip(0, &c);
    assert_eq!(s.active_strip, 0);
    assert_eq!(s.frame_index, 2);
    s.select_strip(4, &c);
    assert_eq!(s.frame_index, 2);
}

#[test]
fn spawned_player_faces_down_running() {
    let c = catalog(vec![4, 4, 4, 4, 4, 4]);
    let p = spawn_player(CADENCE, &c);
    assert_eq!(p.facing, SpriteDirection::Down);
    assert_eq!(p.animation.active_strip, 5);
    assert_eq!(p.animation.frame_index, 0);
}

#[test]
fn ticks_turn_pick_strip_and_flip() {
    let c = catalog(vec![2, 3, 4, 4, 5, 6]);
    let mut p = spawn_player(CADENCE, &c);

    let out = player_movement(&mut p, &keys(false, false, true, false), CADENCE, &c);
    assert_eq!(p.facing, SpriteDirection::Left);
    assert_eq!(out.movement, MovementVector { x: -1, y: 0 });
    assert_eq!(out.strip, 3);
    assert_eq!(out.frame_index, 1);
    assert!(out.flip_x);

    let out = player_movement(&mut p, &keys(true, false, true, false), CADENCE, &c);
    assert_eq!(p.facing, SpriteDirection::Left);
    assert_eq!(out.strip, 3);
    assert_eq!(out.frame_index, 2);
    assert!(out.flip_x);

    let out = player_movement(&mut p, &keys(false, false, false, false), 0, &c);
    assert_eq!(p.facing, SpriteDirection::Left);
    assert_eq!(out.strip, 0);
    assert_eq!(out.frame_index, 0);
    assert!(out.flip_x);

    let out = player_movement(&mut p, &keys(true, false, false, true), 0, &c);
    assert_eq!(p.facing, SpriteDirection::Right);
    assert_eq!(out.strip, 3);
    assert!(!out.flip_x);
}
