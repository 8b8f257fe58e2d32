//! A message classifier: it turns a short message into a prompt for a text
//! completion provider, and the provider's answer into a coarse threat level.
//!
//! The library holds every decision of a request's life: reading the inbound
//! body, framing the outbound call, interpreting the provider's answer and
//! choosing the reply. Sending and receiving are left to the caller.
use vstd::prelude::*;

pub mod json;
pub mod classify;
pub mod request;
pub mod prompt;
pub mod exchange;
