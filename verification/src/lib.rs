//! The call boundary between a freestanding kernel and a native USB
//! host-controller driver: validated strings, the log sink registry, and the
//! error value that bring-up hands back.

pub mod controller;
pub mod error;
pub mod registry;
pub mod text;
