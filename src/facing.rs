use vstd::prelude::*;

verus! {

/// The way the controlled entity faces.
#[derive(Clone, Copy, Debug, PartialEq, Eq, Structural)]
pub enum SpriteDirection {
    Up,
    Down,
    Left,
    Right,
}

impl SpriteDirection {
    pub open spec fn name_spec(self) -> Seq<char> {
        match self {
            SpriteDirection::Up => seq!['U', 'p'],
            SpriteDirection::Down => seq!['D', 'o', 'w', 'n'],
            SpriteDirection::Left => seq!['L', 'e', 'f', 't'],
            SpriteDirection::Right => seq!['R', 'i', 'g', 'h', 't'],
        }
    }

    /// The direction's name, as it is displayed.
    pub fn name(&self) -> (r: String)
        ensures
            r@ == self.name_spec(),
    {
        proof {
            reveal_strlit("Up");
            reveal_strlit("Down");
            reveal_strlit("Left");
            reveal_strlit("Right");
        }
        match self {
            SpriteDirection::Up => String::from_str("Up"),
            SpriteDirection::Down => String::from_str("Down"),
            SpriteDirection::Left => String::from_str("Left"),
            SpriteDirection::Right => String::from_str("Right"),
        }
    }
}

/// The movement still points the way the entity already faces.
pub open spec fn keeps_facing(d: SpriteDirection, x: int, y: int) -> bool {
    match d {
        SpriteDirection::Left => x < 0,
        SpriteDirection::Right => x > 0,
        SpriteDirection::Down => y < 0,
        SpriteDirection::Up => y > 0,
    }
}

/// The facing after a tick whose movement has the signs of `x` and `y`: the
/// current facing stays while the movement still points that way; otherwise
/// horizontal movement wins over vertical, and no movement changes nothing.
pub open spec fn next_facing_spec(d: SpriteDirection, x: int, y: int) -> SpriteDirection {
    if keeps_facing(d, x, y) {
        d
    } else if x < 0 {
        SpriteDirection::Left
    } else if x > 0 {
        SpriteDirection::Right
    } else if y < 0 {
        SpriteDirection::Down
    } else if y > 0 {
        SpriteDirection::Up
    } else {
        d
    }
}

/// The facing that follows `current` under a movement with the signs of `x`
/// and `y`.
pub fn next_facing(current: SpriteDirection, x: i32, y: i32) -> (r: SpriteDirection)
    ensures
        r == next_facing_spec(current, x as int, y as int),
{
    let keep = match current {
        SpriteDirection::Left => x < 0,
        SpriteDirection::Right => x > 0,
        SpriteDirection::Down => y < 0,
        SpriteDirection::Up => y > 0,
    };
    if keep {
        current
    } else if x < 0 {
        SpriteDirection::Left
    } else if x > 0 {
        SpriteDirection::Right
    } else if y < 0 {
        SpriteDirection::Down
    } else if y > 0 {
        SpriteDirection::Up
    } else {
        current
    }
}

/// Moves `sprite_direction` to the facing that follows it under a movement
/// with the signs of `x` and `y`.
pub fn update_sprite_direction(sprite_direction: &mut SpriteDirection, x: i32, y: i32)
    ensures
        *final(sprite_direction) == next_facing_spec(*old(sprite_direction), x as int, y as int),
{
    *sprite_direction = next_facing(*sprite_direction, x, y);
}

/// While the movement still points the way the entity faces, the facing
/// does not change, whatever the other axis does.
pub proof fn lemma_hysteresis(d: SpriteDirection, x: int, y: int)
    requires
        keeps_facing(d, x, y),
    ensures
        next_facing_spec(d, x, y) == d,
{
}

/// When the movement no longer points the way the entity faces, any
/// horizontal movement decides the new facing before vertical movement does.
pub proof fn lemma_horizontal_priority(d: SpriteDirection, x: int, y: int)
    requires
        !keeps_facing(d, x, y),
        x != 0,
    ensures
        next_facing_spec(d, x, y) == (if x < 0 {
            SpriteDirection::Left
        } else {
            SpriteDirection::Right
        }),
{
}

/// No movement never changes the facing.
pub proof fn lemma_idle_keeps_facing(d: SpriteDirection)
    ensures
        next_facing_spec(d, 0, 0) == d,
{
}

/// After any movement, the entity faces a way the movement points.
pub proof fn lemma_faces_movement(d: SpriteDirection, x: int, y: int)
    requires
        x != 0 || y != 0,
    ensures
        keeps_facing(next_facing_spec(d, x, y), x, y),
{
}

} // verus!
