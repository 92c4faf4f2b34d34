use vstd::prelude::*;

verus! {

/// Which of the four movement keys are held during one tick.
#[derive(Clone, Copy, Debug, PartialEq, Eq, Structural)]
pub struct HeldKeys {
    pub up: bool,
    pub down: bool,
    pub left: bool,
    pub right: bool,
}

/// The movement intent of one tick, one sign per axis.
///
/// Each component is -1, 0 or 1. When both components are non-zero the
/// vector stands for the diagonal scaled by 1/sqrt(2) on each axis, so that
/// its length is one; the scaled floating-point value is produced by the host.
#[derive(Clone, Copy, Debug, PartialEq, Eq, Structural)]
pub struct MovementVector {
    pub x: i8,
    pub y: i8,
}

/// Net contribution of a pair of opposing keys to one axis.
pub open spec fn axis_value(positive: bool, negative: bool) -> int {
    (if positive { 1int } else { 0int }) - (if negative { 1int } else { 0int })
}

/// The vector that a set of held keys resolves to.
pub open spec fn resolve_spec(keys: HeldKeys) -> MovementVector {
    MovementVector {
        x: axis_value(keys.right, keys.left) as i8,
        y: axis_value(keys.up, keys.down) as i8,
    }
}

impl MovementVector {
    pub open spec fn wf(self) -> bool {
        -1 <= self.x <= 1 && -1 <= self.y <= 1
    }

    pub open spec fn is_idle_spec(self) -> bool {
        self.x == 0 && self.y == 0
    }

    pub open spec fn is_diagonal_spec(self) -> bool {
        self.x != 0 && self.y != 0
    }

    /// Twice the squared length of the vector once a diagonal is scaled by
    /// 1/sqrt(2) on each axis (kept in integers: the factor 1/2 of the
    /// squared scale is moved to the other side).
    pub open spec fn double_length_sq(self) -> int {
        let s = self.x * self.x + self.y * self.y;
        if self.is_diagonal_spec() {
            s
        } else {
            2 * s
        }
    }

    /// No movement on either axis.
    pub fn is_idle(&self) -> (r: bool)
        ensures
            r == self.is_idle_spec(),
    {
        self.x == 0 && self.y == 0
    }

    /// Movement on both axes, which the host scales by 1/sqrt(2).
    pub fn is_diagonal(&self) -> (r: bool)
        ensures
            r == self.is_diagonal_spec(),
    {
        self.x != 0 && self.y != 0
    }
}

fn axis(positive: bool, negative: bool) -> (r: i8)
    ensures
        r as int == axis_value(positive, negative),
{
    let mut v: i8 = 0;
    if positive {
        v = v + 1;
    }
    if negative {
        v = v - 1;
    }
    v
}

/// Resolves the held keys into a movement vector: up adds one to y, down
/// takes one from it, right adds one to x and left takes one from it.
pub fn get_movement_input(keys: &HeldKeys) -> (r: MovementVector)
    ensures
        r == resolve_spec(*keys),
        r.wf(),
        r.x as int == axis_value(keys.right, keys.left),
        r.y as int == axis_value(keys.up, keys.down),
{
    MovementVector { x: axis(keys.right, keys.left), y: axis(keys.up, keys.down) }
}

/// Whatever keys are held, the resolved vector has length zero or one, and
/// length zero exactly when it is idle.
pub proof fn lemma_length_zero_or_one(keys: HeldKeys)
    ensures
        resolve_spec(keys).double_length_sq() == 0 || resolve_spec(keys).double_length_sq() == 2,
        resolve_spec(keys).double_length_sq() == 0 <==> resolve_spec(keys).is_idle_spec(),
{
    let v = resolve_spec(keys);
    assert(v.x * v.x == (if v.x == 0 { 0int } else { 1int })) by (nonlinear_arith)
        requires
            -1 <= v.x <= 1,
    ;
    assert(v.y * v.y == (if v.y == 0 { 0int } else { 1int })) by (nonlinear_arith)
        requires
            -1 <= v.y <= 1,
    ;
}

/// Opposing keys cancel: an axis whose two keys are both held contributes
/// nothing, whatever else is held.
pub proof fn lemma_opposing_keys_cancel(keys: HeldKeys)
    ensures
        keys.up && keys.down ==> resolve_spec(keys).y == 0,
        keys.left && keys.right ==> resolve_spec(keys).x == 0,
{
}

} // verus!
