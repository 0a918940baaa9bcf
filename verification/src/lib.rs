//! Verified construction of a pipeline-layout object: validation of an
//! abstract layout description against device limits, resolution of
//! descriptor-set layouts, assembly of push-constant ranges, and the
//! ownership handshake around the native object that results.
//!
//! The native driver itself stands outside this crate: callers submit the
//! assembled creation request to it and hand its reply back, and the
//! functions here say exactly what is accepted, what is rejected, and with
//! which error.

pub mod stages;
pub mod device;
pub mod descriptor;
pub mod sharing;
pub mod set_layout;
pub mod error;
pub mod desc;
pub mod buffers;
pub mod layout;
pub mod laws;
