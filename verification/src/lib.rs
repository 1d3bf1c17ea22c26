//! Client-side logic for a gateway's port-forwarding control protocol.
//!
//! The crate holds the decisions of a port-mapping client: which request an
//! operation issues, how a device's answer is classified, and how the
//! "any port" negotiation falls back from one strategy to the next. Sending a
//! request and reading the answer off the wire are left to the caller, who
//! hands each answer back as a plain value.

pub mod address;
pub mod errors;
pub mod gateway;
pub mod negotiation;
pub mod render;
pub mod request;
pub mod trace;
