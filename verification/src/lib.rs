//! A boundary layer through which a host process drives native diagnostics:
//! a profiling session and a trace-recording session, each handed to the host
//! as an opaque handle that it can hold and release, and one error shape for
//! every failure that crosses the boundary.
//!
//! The library holds the decisions and the bookkeeping. Creating directories,
//! starting the native sessions and printing notices is left to the caller,
//! which reports each outcome back.

pub mod error;
pub mod filter;
pub mod handle;
pub mod profiler;
pub mod target;
pub mod trace;
