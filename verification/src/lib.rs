//! Core logic of a transit countdown display: reconciling scheduled and
//! predicted departures, selecting the departure to show, computing minimal
//! digit updates for two display geometries, building the bit-banged serial
//! traces that drive the segment controller, and the overnight pause state
//! machine.

pub mod countdown;
pub mod daytime;
pub mod diff;
pub mod feed;
pub mod led_view;
pub mod poll;
pub mod reconcile;
pub mod scheduler;
pub mod seg_view;
pub mod segments;
pub mod serial;

pub use daytime::DayTime;
