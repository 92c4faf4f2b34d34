pub mod animation;
pub mod facing;
pub mod input;
pub mod player;
