//! Coalescing negotiators that reconcile fast-changing local state with a
//! remote session that can only be updated through asynchronous calls.
//!
//! Every function here is a plain, synchronous transition on a small state
//! record. The caller owns the lock around the record and performs the remote
//! calls; the transitions decide what is to be sent and when a worker has to
//! be started or may stop.

pub mod dimensions;
pub mod stream;
pub mod resize;
pub mod focus;
pub mod trace;
pub mod guarantees;
