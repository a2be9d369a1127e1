//! Pure core of an outbound HTTP relay: how the outgoing request is put
//! together, and how whatever the transport reports is turned into the one
//! outcome handed back to the caller.

pub mod greeting;
pub mod headers;
pub mod outcome;
pub mod relay;
pub mod text;
