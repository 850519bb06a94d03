//! Core of a VBAN audio bridge service: the wire-format codec for VBAN
//! audio packets, the receiver's datagram filtering and decoding pipeline,
//! the transmitter's packetization and frame counting, and the exponential
//! backoff policy of the supervisor loop. Socket, channel, audio-engine and
//! configuration plumbing live with the caller.

pub mod asciistackstr;
pub mod backoff;
pub mod packet;
pub mod receiver;
pub mod service;
pub mod transmitter;
