//! Maps Wacom tablets onto one display output of an X11 desktop.
//!
//! The library holds the decisions: which outputs make up the desktop, which
//! output a tablet is mapped to, the affine transform that does it, which input
//! devices receive it, and when a running watcher has to apply it again. The
//! protocol work around these decisions is left to the caller.

pub mod text;
pub mod topology;
pub mod mapper;
pub mod error;
pub mod devices;
pub mod watch;
pub mod cli;
