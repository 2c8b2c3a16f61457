//! Discrete decision logic of a 2D platformer character controller: input
//! mapping, ground / wall / ledge sensing, the jump state machine and the
//! movement-gym level layout. Physics values stay with the caller; the
//! library decides what happens to them.
pub mod wall;
pub mod sensing;
pub mod movement;
pub mod input;
pub mod layout;
pub mod laws;
