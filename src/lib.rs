//! Decision logic of a small keyboard-driven 2D mover.
//!
//! Each frame the held direction keys are folded into a grid direction, and
//! that direction, together with whether the entity is moving faster than the
//! braking threshold, decides which force the entity receives.
pub mod input;
