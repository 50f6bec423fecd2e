//! A message relay: consumes records from named broker queues and forwards
//! each record's payload to an external persistence sink, acknowledging
//! successfully handled messages back to the broker.
//!
//! The verified core is the per-queue consumer protocol (decode, forward,
//! ack policy) and the fail-fast group rule of the supervisor; the binary
//! around it performs the actual broker and sink I/O.

pub mod broker;
pub mod configuration;
pub mod consumer;
pub mod supervisor;
pub mod sink;
pub mod text;
pub mod trace;
