//! Graphics-context bring-up and per-window renderer registry.
//!
//! The library models the lifecycle of hardware-accelerated graphics
//! contexts: device discovery and first-fit selection, validation-layer and
//! extension policy, context construction with strict cleanup on failure,
//! and a registry that keeps one context per live window.  Driver calls
//! themselves are performed by the surrounding application; every decision
//! the application takes is computed and proved here.

pub mod context;
pub mod debug;
pub mod device;
pub mod engine;
pub mod ledger;
