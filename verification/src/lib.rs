//! Request-routing extension logic for gateway inference protocols.
//!
//! Two stages inspect an HTTP request before upstream selection. Body-based
//! routing (BBR) buffers the request body, reads a model name out of its JSON
//! document and records it in a request header. The endpoint-picker stage
//! (EPP) forwards the request headers to an external processor over a
//! streaming exchange and records the endpoint it answers with. Both stages
//! honour fail-open/fail-closed policy, defaults, a body-size ceiling and a
//! call timeout. The host event loop performs the I/O; every decision the
//! stages take is made here.

pub mod bbr;
pub mod body;
pub mod bridge;
pub mod client;
pub mod config;
pub mod epp;
pub mod headers;
pub mod model_extractor;
pub mod outcome;
pub mod pipeline;
pub mod protocol;
pub mod strutil;
