//! Lifecycle of one remote browser instance on an attached Android device.
//!
//! The library decides, the caller performs: every device interaction is
//! described as a [`handler::DeviceCommand`] that the caller runs against its
//! transport, and whose outcome it hands back where a decision depends on it.
use vstd::prelude::*;

pub mod activity;
pub mod config;
pub mod error;
pub mod handler;
pub mod paths;

verus! {

} // verus!
