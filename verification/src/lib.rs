//! Backend for a prompt-forwarding desktop shell: builds the wire payload for
//! a hosted-model inference endpoint, reshapes the endpoint's JSON reply into
//! a normalized result, and maps every failure to the caller's string error.

pub mod handler;
pub mod json;
