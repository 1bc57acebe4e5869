//! Exclusive, lifecycle-safe access to a machine's hardware performance
//! counter facility.
//!
//! The facility is a single, process-wide, non-reentrant resource: only one
//! counting session may be active at a time. This library verifies the
//! discipline that makes concurrent callers safe despite that: a
//! mutual-exclusion lock over the counter hardware ([`lock`]) with a
//! randomized exponential backoff policy for contention ([`backoff`]), and a
//! session handle ([`session::CounterSet`]) whose states mirror the
//! facility's start/read/accumulate/stop machine and whose teardown always
//! leaves the hardware stopped and the lock released.
//!
//! The native calls themselves (start, stop, read, accumulate and the two
//! queries) are a foreign surface that returns a status code; they are
//! performed by the embedding program, which feeds each status and each
//! sampled buffer back into the verified state machine here.

pub mod backoff;
pub mod events;
pub mod lock;
pub mod session;
pub mod status;
pub mod workload;
