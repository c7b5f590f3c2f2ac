//! Single-frame screen capture: buffer negotiation, the capture session state
//! machine, and conversion of the captured buffer to packed RGBA.
//!
//! The library holds every decision of a capture; the caller owns the
//! connection to the compositor and the shared-memory pool, performs the
//! actions the session asks for, and reports back what happened.

pub mod convert;
pub mod descriptor;
pub mod error;
pub mod manager;
pub mod negotiate;
pub mod session;
pub mod status;
