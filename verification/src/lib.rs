//! A clock-driven animation timeline, as verified state machines.
//!
//! Every component here is plain state plus functions that take the current
//! clock reading, in whole milliseconds, as an argument. Nothing in this crate
//! reads a clock, schedules work or draws: the caller owns the clock and the
//! loop, and asks these functions what the state is and what to do next.
//!
//! - `event`: events that fire once and are measured from, work that hangs
//!   on them, and listeners.
//! - `timer`: a clock that can be paused.
//! - `ticker`: a clock that counts in steps.
//! - `sequencer`: a row of scenes shown one at a time.
//! - `easing` and `interpolation`: easing curves and range-to-range maps in
//!   exact arithmetic, with their laws in `interpolation_laws`.

pub mod easing;
pub mod event;
pub mod interpolation;
pub mod interpolation_laws;
pub mod sequencer;
pub mod ticker;
pub mod timer;

pub use crate::easing::ease_in_out_cubic;
pub use crate::easing::Fraction;
pub use crate::event::time_since;
pub use crate::event::Event;
pub use crate::event::Listener;
pub use crate::interpolation::interpolate;
pub use crate::interpolation::Interpolation;
pub use crate::sequencer::SceneHandler;
pub use crate::sequencer::SceneManager;
pub use crate::ticker::tick;
pub use crate::ticker::tick_bool;
pub use crate::ticker::tick_iterate;
pub use crate::timer::pausable_timer;
pub use crate::timer::PausableTimer;
