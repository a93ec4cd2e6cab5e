//! A real-time video-encoding bridge.
//!
//! A host application fills caller-owned pixel buffers (three planes per
//! frame, double-buffered) and drives a synchronous pipeline: open a session,
//! submit frames one at a time, finish. This crate holds the verified core of
//! that pipeline: the exact rational timestamp arithmetic, the aliased-frame
//! pointer bookkeeping, the per-session sequencing state, and the process-wide
//! registry lifecycle. The encoder and container library themselves are
//! external collaborators, driven by an unverified shell that performs the
//! actual I/O and reports each outcome back to this core.

pub mod config;
pub mod frame;
pub mod rational;
pub mod registry;
pub mod session;
