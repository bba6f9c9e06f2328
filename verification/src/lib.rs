//! Translates a relative pointer's event stream into the line protocol of a
//! virtual touchscreen: relative motion is accumulated into a clamped absolute
//! position, and a trigger button drives a single touch contact.

pub mod decimal;
pub mod protocol;
pub mod event;
pub mod model;
pub mod accumulator;
pub mod device;
pub mod translator;
pub mod laws;

pub use crate::accumulator::CoordinateAccumulator;
pub use crate::event::{EventKind, PointerEvent};
pub use crate::model::{Contact, State};
pub use crate::translator::TransformInput;
