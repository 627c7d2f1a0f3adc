//! Physics of a small side-scrolling platformer, in fixed-point integers.
//!
//! Lengths are counted in micro-units (a millionth of a world unit), times in
//! microseconds, and velocities in micro-units per second. With these units
//! every rule of the simulation is exact integer arithmetic, except the
//! distance travelled in one frame and the four fifths kept by ground
//! friction, which are rounded toward zero.
pub mod geometry;
pub mod body;
pub mod player;
pub mod enemy;
pub mod world;
pub mod laws;
