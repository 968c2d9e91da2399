//! What the screen shows.

pub mod player;
