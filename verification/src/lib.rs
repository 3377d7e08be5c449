//! Read-only access to beamline session records, gated by a policy decision
//! service.
//!
//! The crate holds the logic of the request pipeline: extracting a bearer
//! credential from an authorization header, framing the policy decision
//! request, interpreting the policy service's verdict, selecting and mapping
//! stored rows to the response shape, and the per-request resolver state
//! machine that forbids any data access before an affirmative decision.
//! Transport, database and telemetry plumbing live outside the library and
//! drive the state machine with plain values.

pub mod codec;
pub mod policy;
pub mod resolver;
pub mod session;
pub mod token;
