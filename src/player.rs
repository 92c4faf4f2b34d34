use vstd::prelude::*;

use crate::animation::{
    animate_sprite,
    animate_spec,
    bucket_spec,
    flip_x,
    motion_spec,
    select_spec,
    strip_id_spec,
    update_texture_atlas_handle,
    AnimationState,
    AnimationStripSet,
};
use crate::facing::{next_facing_spec, update_sprite_direction, SpriteDirection};
use crate::input::{get_movement_input, resolve_spec, HeldKeys, MovementVector};

verus! {

/// What the controlled entity keeps from one tick to the next.
#[derive(Clone, Copy, Debug, PartialEq, Eq, Structural)]
pub struct PlayerState {
    pub facing: SpriteDirection,
    pub animation: AnimationState,
}

/// What one tick hands to the host: the movement to apply to the position
/// and what to draw.
#[derive(Clone, Copy, Debug, PartialEq, Eq, Structural)]
pub struct TickOutput {
    pub movement: MovementVector,
    pub strip: usize,
    pub frame_index: usize,
    pub flip_x: bool,
}

impl PlayerState {
    pub open spec fn wf(self, catalog: Seq<usize>) -> bool {
        self.animation.wf(catalog)
    }
}

/// The state of a newly spawned entity: facing down, on the first frame of
/// the running-down strip, with a frame cadence of `cadence` nanoseconds.
pub fn spawn_player(cadence: u64, catalog: &AnimationStripSet) -> (r: PlayerState)
    requires
        cadence > 0,
        catalog.wf(),
    ensures
        r.wf(catalog@),
        r.facing == SpriteDirection::Down,
        r.animation.active_strip as int == strip_id_spec(
            motion_spec(false),
            bucket_spec(SpriteDirection::Down),
        ),
        r.animation.frame_index == 0,
        r.animation.timer.elapsed == 0,
        r.animation.timer.cadence == cadence,
{
    let strip = update_texture_atlas_handle(SpriteDirection::Down, false);
    PlayerState {
        facing: SpriteDirection::Down,
        animation: AnimationState::new(cadence, strip, catalog),
    }
}

/// The state after one tick: the facing after the resolved movement, the
/// strip for that facing and motion, then `dt` nanoseconds of animation.
pub open spec fn tick_spec(s: PlayerState, keys: HeldKeys, dt: int, catalog: Seq<usize>) -> PlayerState {
    let mv = resolve_spec(keys);
    let facing = next_facing_spec(s.facing, mv.x as int, mv.y as int);
    let strip = strip_id_spec(motion_spec(mv.is_idle_spec()), bucket_spec(facing));
    let selected = select_spec(s.animation, strip, catalog[strip] as int);
    PlayerState { facing, animation: animate_spec(selected, catalog[strip] as int, dt) }
}

/// Runs one tick: resolves the held keys, turns the entity, picks the strip
/// and advances the animation by `dt` nanoseconds.
pub fn player_movement(
    state: &mut PlayerState,
    keys: &HeldKeys,
    dt: u64,
    catalog: &AnimationStripSet,
) -> (r: TickOutput)
    requires
        old(state).wf(catalog@),
    ensures
        final(state).wf(catalog@),
        *final(state) == tick_spec(*old(state), *keys, dt as int, catalog@),
        r.movement == resolve_spec(*keys),
        r.strip == final(state).animation.active_strip,
        r.frame_index == final(state).animation.frame_index,
        r.flip_x == (final(state).facing == SpriteDirection::Left),
{
    let movement = get_movement_input(keys);
    let is_idle = movement.is_idle();
    update_sprite_direction(&mut state.facing, movement.x as i32, movement.y as i32);
    let strip = update_texture_atlas_handle(state.facing, is_idle);
    state.animation.select_strip(strip, catalog);
    animate_sprite(&mut state.animation, catalog, dt);
    TickOutput {
        movement,
        strip: state.animation.active_strip,
        frame_index: state.animation.frame_index,
        flip_x: flip_x(state.facing),
    }
}

} // verus!
