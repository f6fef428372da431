//! Decision logic of a screenshot-saving utility: how a capture response is
//! classified, where the captured image is filed, under which name, by which
//! sequence of filesystem operations it is moved there, and what desktop
//! notification announces it.
//!
//! Every function here works on plain values; talking to the capture portal,
//! to the filesystem and to the notification bus is left to the caller.

pub mod capture;
pub mod destination;
pub mod notification;
pub mod paths;
pub mod relocation;
pub mod settings;
pub mod timestamp;
pub mod workflow;
