//! A host and a worker exchange one task payload through a named, page-aligned
//! shared-memory segment, with a pair of message queues that carries nothing
//! but the byte length of what was just written.
//!
//! The library holds every decision of that exchange and none of its system
//! calls. Each component is a machine that hands its caller the next call to
//! make and takes the outcome back, so the same rules hold whatever performs
//! the calls.
//!
//! Under `pcube::common`:
//! - `sizing` rounds a length to whole pages, and `signal` writes and reads
//!   the length signals.
//! - `sm_handler` is the segment manager, `sm_calls` the calls it asks for,
//!   and `sm_model` what it is as a mathematical value.
//! - `exchange` is the protocol that both services follow; `host::service`
//!   and `worker::service` are its two roles.
//! - `sm_world` describes a system that answers the manager's calls, and
//!   `system` a host and a worker at work on it.
//! - `sm_laws`, `exchange_laws`, `round_trip` and `turn_taking` state what
//!   holds of all of this.

pub mod pcube;
