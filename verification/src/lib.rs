//! Trace-context propagation and call orchestration for a chain of three
//! services: a gateway, a words service and a signing service.
//!
//! The library holds what the services decide: how a span context is
//! written onto a carrier and read back, how a span lives from start to
//! end, how a downstream call is prepared and settled, what each service
//! answers, and how a listener starts, drains and stops. The process around
//! it does the input and output.

pub mod carrier;
pub mod config;
pub mod context;
pub mod gateway;
pub mod generate;
pub mod laws;
pub mod lifecycle;
pub mod messages;
pub mod propagator;
pub mod provider;
pub mod rpc;
pub mod signer;
pub mod span;
pub mod stamp;
pub mod text;
pub mod words;
