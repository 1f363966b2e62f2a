//! Rules of a small real-time skirmish: units are selected with the pointer,
//! sent to a destination, set upon a target, and fire fading projectiles.
//!
//! The entities live in a `legion` world. Each system reads the world through
//! the functions of [`ecs`], decides, and records what is to change in the
//! command buffer that the host flushes. A handle that does not come from a
//! query is looked up among the placed entities first ([`placement`]). Every quantity is a whole number, so
//! that every rule is exact: lengths are thousandths of a world unit, times
//! are microseconds, opacities are millionths.

pub mod combat;
pub mod ecs;
pub mod gameworld;
pub mod geometry;
pub mod input;
pub mod placement;
pub mod units;
