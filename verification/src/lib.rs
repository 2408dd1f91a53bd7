//! Client-side core of a compositor control protocol: the message-type
//! registry, the wire codec for length-delimited binary frames, the typed
//! domain records that reply payloads decode into, and the error taxonomy.
//! Channel I/O itself lives outside this crate; everything here is pure
//! computation over bytes and values.

pub mod client;
pub mod codec;
pub mod error;
pub mod json;
pub mod message;
pub mod model;
pub mod ui;
