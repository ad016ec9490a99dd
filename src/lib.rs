//! Interactive controllers for scene objects: a push button, a drag lever,
//! a jumpgate with two rotating rings and a player's precision/zoom mode.
//!
//! Every continuous quantity is a fixed-point integer: positions, angles,
//! velocities and fields of view are counted in millionths or thousandths of
//! their unit, as each module states, and time steps in microseconds. Each
//! controller reacts to plain events and returns what the host is to do
//! (a notification, an animation, a turn, a cursor mode).

pub mod button;
pub mod input;
pub mod jumpgate;
pub mod lever;
pub mod math;
pub mod player;

pub use button::{AnimationCue, ButtonEffect, ButtonSignal, ButtonState, PushButton};
pub use input::PointerEvent;
pub use jumpgate::{Jumpgate, RingTurn, DEFAULT_RING_ACCELERATION, MICROS};
pub use lever::{Lever, LeverSignal, DEFAULT_SENSITIVITY, POSITION_SCALE, THRESHOLD};
pub use math::{clamp, move_toward};
pub use player::{CursorMode, Player, PrecisionInput, DEFAULT_BASE_FOV, DEFAULT_ZOOM_STEP, ZOOM_MIN};
