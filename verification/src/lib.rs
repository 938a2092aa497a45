//! Control-input distribution layer for a robot control loop.
//!
//! A background poller samples an external hardware source, publishes each
//! sample as an immutable [`frame::InputFrame`] into a single-slot
//! [`slot::PublicationSlot`] ("latest wins" coalescing), and signals a
//! [`gate::WaitGate`]. The [`driverstation::DriverStation`] facade pulls the
//! newest published frame into a private cache on demand and serves
//! bounds-checked joystick queries, derives the robot mode from the control
//! word, and emits rate-limited diagnostic reports on query errors.

pub mod driverstation;
pub mod frame;
pub mod gate;
mod handles;
pub mod hal;
pub mod poller;
pub mod report;
pub mod slot;
pub mod throttler;
