use vstd::prelude::*;
use vstd::arithmetic::div_mod::{
    lemma_add_mod_noop_right,
    lemma_div_is_ordered_by_denominator,
    lemma_fundamental_div_mod,
    lemma_fundamental_div_mod_converse,
    lemma_mod_pos_bound,
    lemma_div_pos_is_pos,
};

use crate::facing::SpriteDirection;

verus! {

/// How many animation strips the catalog holds: two motion states times
/// three direction buckets.
pub const STRIP_COUNT: usize = 6;

/// Whether the entity stands still or moves during a tick.
#[derive(Clone, Copy, Debug, PartialEq, Eq, Structural)]
pub enum MotionState {
    Idle,
    Running,
}

/// Left and right share one strip, told apart by a horizontal flip.
#[derive(Clone, Copy, Debug, PartialEq, Eq, Structural)]
pub enum DirectionBucket {
    Up,
    Down,
    Horizontal,
}

pub open spec fn bucket_spec(d: SpriteDirection) -> DirectionBucket {
    match d {
        SpriteDirection::Up => DirectionBucket::Up,
        SpriteDirection::Down => DirectionBucket::Down,
        SpriteDirection::Left => DirectionBucket::Horizontal,
        SpriteDirection::Right => DirectionBucket::Horizontal,
    }
}

/// The identifier of the strip for a motion state and a direction bucket:
/// idle strips come first, each group ordered horizontal, up, down.
pub open spec fn strip_id_spec(m: MotionState, b: DirectionBucket) -> int {
    (match m {
        MotionState::Idle => 0int,
        MotionState::Running => 3int,
    }) + (match b {
        DirectionBucket::Horizontal => 0int,
        DirectionBucket::Up => 1int,
        DirectionBucket::Down => 2int,
    })
}

pub open spec fn motion_spec(is_idle: bool) -> MotionState {
    if is_idle {
        MotionState::Idle
    } else {
        MotionState::Running
    }
}

/// The bucket whose strip shows a facing.
pub fn direction_bucket(d: SpriteDirection) -> (r: DirectionBucket)
    ensures
        r == bucket_spec(d),
{
    match d {
        SpriteDirection::Up => DirectionBucket::Up,
        SpriteDirection::Down => DirectionBucket::Down,
        SpriteDirection::Left => DirectionBucket::Horizontal,
        SpriteDirection::Right => DirectionBucket::Horizontal,
    }
}

/// The identifier of the strip for a motion state and a direction bucket.
pub fn strip_id(m: MotionState, b: DirectionBucket) -> (r: usize)
    ensures
        r as int == strip_id_spec(m, b),
        r < STRIP_COUNT,
{
    let base: usize = match m {
        MotionState::Idle => 0,
        MotionState::Running => 3,
    };
    let offset: usize = match b {
        DirectionBucket::Horizontal => 0,
        DirectionBucket::Up => 1,
        DirectionBucket::Down => 2,
    };
    base + offset
}

/// The strip that shows an entity with this facing, idle or moving.
pub fn update_texture_atlas_handle(facing: SpriteDirection, is_idle: bool) -> (r: usize)
    ensures
        r as int == strip_id_spec(motion_spec(is_idle), bucket_spec(facing)),
        r < STRIP_COUNT,
{
    let m = if is_idle {
        MotionState::Idle
    } else {
        MotionState::Running
    };
    strip_id(m, direction_bucket(facing))
}

/// Whether the strip is drawn mirrored: only when facing left.
pub fn flip_x(facing: SpriteDirection) -> (r: bool)
    ensures
        r == (facing == SpriteDirection::Left),
{
    match facing {
        SpriteDirection::Left => true,
        _ => false,
    }
}

/// A fault in the catalog of strips, found when it is built.
#[derive(Clone, Copy, Debug, PartialEq, Eq, Structural)]
pub enum CatalogError {
    /// The catalog does not hold exactly one frame count per strip.
    WrongStripCount,
    /// The strip with this identifier has no frames.
    EmptyStrip(usize),
}

/// The frame count of each strip, indexed by strip identifier.
pub struct AnimationStripSet {
    frame_counts: Vec<usize>,
}

impl View for AnimationStripSet {
    type V = Seq<usize>;

    closed spec fn view(&self) -> Seq<usize> {
        self.frame_counts@
    }
}

pub open spec fn catalog_complete(counts: Seq<usize>) -> bool {
    counts.len() == STRIP_COUNT && forall|i: int| 0 <= i < counts.len() ==> counts[i] > 0
}

impl AnimationStripSet {
    pub open spec fn wf(&self) -> bool {
        catalog_complete(self@)
    }

    /// Builds the catalog from one frame count per strip; every strip must
    /// have at least one frame.
    pub fn new(frame_counts: Vec<usize>) -> (r: Result<AnimationStripSet, CatalogError>)
        ensures
            r is Ok <==> catalog_complete(frame_counts@),
            r matches Ok(c) ==> c@ == frame_counts@ && c.wf(),
            r == Err::<AnimationStripSet, CatalogError>(CatalogError::WrongStripCount)
                <==> frame_counts@.len() != STRIP_COUNT,
            r matches Err(CatalogError::EmptyStrip(i)) ==> frame_counts@.len() == STRIP_COUNT
                && i < STRIP_COUNT && frame_counts@[i as int] == 0 && forall|j: int|
                0 <= j < i ==> frame_counts@[j] > 0,
    {
        if frame_counts.len() != STRIP_COUNT {
            return Err(CatalogError::WrongStripCount);
        }
        let mut i: usize = 0;
        while i < frame_counts.len()
            invariant
                frame_counts@.len() == STRIP_COUNT,
                0 <= i <= frame_counts@.len(),
                forall|j: int| 0 <= j < i ==> frame_counts@[j] > 0,
            decreases frame_counts@.len() - i,
        {
            if frame_counts[i] == 0 {
                return Err(CatalogError::EmptyStrip(i));
            }
            i = i + 1;
        }
        Ok(AnimationStripSet { frame_counts })
    }

    /// The number of frames of a strip.
    pub fn frame_count(&self, strip: usize) -> (r: usize)
        requires
            self.wf(),
            strip < STRIP_COUNT,
        ensures
            r == self@[strip as int],
            r > 0,
    {
        self.frame_counts[strip]
    }
}

/// A repeating timer over nanoseconds: `elapsed` is the time gathered
/// towards the next frame, `cadence` the time that one frame lasts.
#[derive(Clone, Copy, Debug, PartialEq, Eq, Structural)]
pub struct AnimationTimer {
    pub elapsed: u64,
    pub cadence: u64,
}

/// The number of whole cadences that have passed once `dt` is added.
pub open spec fn frames_after(elapsed: int, cadence: int, dt: int) -> int {
    (elapsed + dt) / cadence
}

/// The time left towards the next frame once `dt` is added.
pub open spec fn elapsed_after(elapsed: int, cadence: int, dt: int) -> int {
    (elapsed + dt) % cadence
}

impl AnimationTimer {
    pub open spec fn wf(self) -> bool {
        0 < self.cadence && self.elapsed < self.cadence
    }

    /// A timer that has gathered no time yet.
    pub fn from_nanos(cadence: u64) -> (r: AnimationTimer)
        requires
            cadence > 0,
        ensures
            r.wf(),
            r.cadence == cadence,
            r.elapsed == 0,
    {
        AnimationTimer { elapsed: 0, cadence }
    }

    /// Adds `dt` nanoseconds and consumes one cadence for each frame that
    /// is due; returns how many were.
    pub fn tick(&mut self, dt: u64) -> (frames: u64)
        requires
            old(self).wf(),
        ensures
            final(self).wf(),
            final(self).cadence == old(self).cadence,
            final(self).elapsed as int == elapsed_after(
                old(self).elapsed as int,
                old(self).cadence as int,
                dt as int,
            ),
            frames as int == frames_after(
                old(self).elapsed as int,
                old(self).cadence as int,
                dt as int,
            ),
    {
        let total: u128 = self.elapsed as u128 + dt as u128;
        let c: u128 = self.cadence as u128;
        proof {
            lemma_mod_pos_bound(total as int, c as int);
            if c >= 2 {
                lemma_div_is_ordered_by_denominator(total as int, 2, c as int);
            }
        }
        let frames: u128 = total / c;
        self.elapsed = (total % c) as u64;
        frames as u64
    }
}

/// The frame cycle of the controlled entity.
#[derive(Clone, Copy, Debug, PartialEq, Eq, Structural)]
pub struct AnimationState {
    pub timer: AnimationTimer,
    pub frame_index: usize,
    pub active_strip: usize,
}

/// The state after `dt` nanoseconds on a strip of `n` frames: every frame
/// that falls due moves the index on by one, wrapping to zero.
pub open spec fn animate_spec(s: AnimationState, n: int, dt: int) -> AnimationState {
    AnimationState {
        timer: AnimationTimer {
            elapsed: elapsed_after(s.timer.elapsed as int, s.timer.cadence as int, dt) as u64,
            cadence: s.timer.cadence,
        },
        frame_index: ((s.frame_index as int + frames_after(
            s.timer.elapsed as int,
            s.timer.cadence as int,
            dt,
        )) % n) as usize,
        active_strip: s.active_strip,
    }
}

/// The state after a switch to `strip` of `n` frames: the index is kept,
/// brought under the new count at once.
pub open spec fn select_spec(s: AnimationState, strip: int, n: int) -> AnimationState {
    AnimationState {
        timer: s.timer,
        frame_index: (s.frame_index as int % n) as usize,
        active_strip: strip as usize,
    }
}

impl AnimationState {
    pub open spec fn wf(self, catalog: Seq<usize>) -> bool {
        &&& catalog_complete(catalog)
        &&& self.timer.wf()
        &&& self.active_strip < STRIP_COUNT
        &&& self.frame_index < catalog[self.active_strip as int]
    }

    /// The first frame of `strip`, with a timer of `cadence` nanoseconds.
    pub fn new(cadence: u64, strip: usize, catalog: &AnimationStripSet) -> (r: AnimationState)
        requires
            cadence > 0,
            strip < STRIP_COUNT,
            catalog.wf(),
        ensures
            r.wf(catalog@),
            r.timer.cadence == cadence,
            r.timer.elapsed == 0,
            r.frame_index == 0,
            r.active_strip == strip,
    {
        AnimationState { timer: AnimationTimer::from_nanos(cadence), frame_index: 0, active_strip: strip }
    }

    /// Makes `strip` the active one. The frame index keeps its value modulo
    /// the new strip's frame count; the timer is untouched.
    pub fn select_strip(&mut self, strip: usize, catalog: &AnimationStripSet)
        requires
            old(self).wf(catalog@),
            strip < STRIP_COUNT,
        ensures
            final(self).wf(catalog@),
            *final(self) == select_spec(*old(self), strip as int, catalog@[strip as int] as int),
    {
        let n = catalog.frame_count(strip);
        self.frame_index = self.frame_index % n;
        self.active_strip = strip;
    }
}

/// Lets `dt` nanoseconds pass on the active strip: the index moves on by one
/// for each cadence that falls due, wrapping to zero at the frame count.
pub fn animate_sprite(state: &mut AnimationState, catalog: &AnimationStripSet, dt: u64)
    requires
        old(state).wf(catalog@),
    ensures
        final(state).wf(catalog@),
        *final(state) == animate_spec(
            *old(state),
            catalog@[old(state).active_strip as int] as int,
            dt as int,
        ),
{
    let n = catalog.frame_count(state.active_strip);
    let frames = state.timer.tick(dt);
    let step: usize = ((frames as u128) % (n as u128)) as usize;
    let i = state.frame_index;
    proof {
        lemma_add_mod_noop_right(i as int, frames as int, n as int);
        lemma_mod_pos_bound(frames as int, n as int);
    }
    if step >= n - i {
        proof {
            lemma_fundamental_div_mod_converse(i + step, n as int, 1, i + step - n);
        }
        state.frame_index = step - (n - i);
    } else {
        proof {
            lemma_fundamental_div_mod_converse(i + step, n as int, 0, i + step);
        }
        state.frame_index = i + step;
    }
}

/// Time adds up: letting `d1` and then `d2` nanoseconds pass on one strip
/// ends in the same state as letting `d1 + d2` pass at once.
pub proof fn lemma_ticks_add_up(s: AnimationState, n: int, d1: int, d2: int)
    requires
        s.timer.wf(),
        0 < n <= usize::MAX,
        0 <= s.frame_index < n,
        0 <= d1,
        0 <= d2,
    ensures
        animate_spec(animate_spec(s, n, d1), n, d2) == animate_spec(s, n, d1 + d2),
{
    let e = s.timer.elapsed as int;
    let c = s.timer.cadence as int;
    let i = s.frame_index as int;
    let q1 = (e + d1) / c;
    let r1 = (e + d1) % c;
    let q2 = (r1 + d2) / c;
    let r2 = (r1 + d2) % c;
    lemma_div_pos_is_pos(e + d1, c);
    lemma_div_pos_is_pos(r1 + d2, c);
    lemma_fundamental_div_mod(e + d1, c);
    lemma_fundamental_div_mod(r1 + d2, c);
    lemma_mod_pos_bound(e + d1, c);
    lemma_mod_pos_bound(r1 + d2, c);
    lemma_mod_pos_bound(i + q1, n);
    assert(c * q1 + c * q2 == (q1 + q2) * c) by (nonlinear_arith);
    lemma_fundamental_div_mod_converse(e + d1 + d2, c, q1 + q2, r2);
    lemma_add_mod_noop_right(q2, i + q1, n);
    let t = animate_spec(s, n, d1);
    assert(t.timer.elapsed as int == r1);
    assert(t.frame_index as int == (i + q1) % n);
}

/// Letting exactly `k` cadences pass moves the index on by exactly `k`,
/// modulo the frame count, and leaves the gathered time as it was.
pub proof fn lemma_whole_cadences(s: AnimationState, n: int, k: int)
    requires
        s.timer.wf(),
        0 < n <= usize::MAX,
        0 <= s.frame_index < n,
        0 <= k,
    ensures
        animate_spec(s, n, k * s.timer.cadence).frame_index as int == (s.frame_index + k) % n,
        animate_spec(s, n, k * s.timer.cadence).timer == s.timer,
{
    let e = s.timer.elapsed as int;
    let c = s.timer.cadence as int;
    assert(e + k * c == k * c + e) by (nonlinear_arith);
    assert(0 <= k * c) by (nonlinear_arith)
        requires
            0 <= k,
            0 < c,
    ;
    lemma_fundamental_div_mod_converse(e + k * c, c, k, e);
    lemma_mod_pos_bound(s.frame_index + k, n);
}

/// The frame index always stays below the active strip's frame count,
/// however much time passes and whichever strip is switched to.
pub proof fn lemma_index_in_range(s: AnimationState, catalog: Seq<usize>, strip: int, dt: int)
    requires
        s.wf(catalog),
        0 <= strip < STRIP_COUNT,
        0 <= dt,
    ensures
        animate_spec(s, catalog[s.active_strip as int] as int, dt).wf(catalog),
        select_spec(s, strip, catalog[strip] as int).wf(catalog),
{
    let n = catalog[s.active_strip as int] as int;
    let e = s.timer.elapsed as int;
    let c = s.timer.cadence as int;
    lemma_mod_pos_bound(e + dt, c);
    lemma_mod_pos_bound(s.frame_index + (e + dt) / c, n);
    lemma_mod_pos_bound(s.frame_index as int, catalog[strip] as int);
}

} // verus!
