//! A tagged result value, holding at most one of a success value and a
//! failure, with a registry of failure handlers and a verified dispatch
//! engine that selects the handler for a held failure.
//!
//! Host objects appear as plain values (`host`). Dispatch looks a failure up
//! by its own identity hash first, then scans the table in order for the
//! first type that the failure's type is or derives from (`dispatch`). The
//! persistent registry keeps one entry per failure type in registration
//! order (`registry`). Consuming a result yields an `Action` for the host to
//! perform: return a value, invoke a handler or a fallback, or fail
//! (`result`). The general properties are proved in `laws`.

pub mod dispatch;
pub mod host;
pub mod laws;
pub mod registry;
pub mod result;
