//! Client-side codec for the binary chat protocol of a legacy game network:
//! typed packets, their exact wire layout, and the framing state machine that
//! turns a fragmented byte stream into whole packets.

#![allow(non_camel_case_types)]

pub mod auth;
pub mod buffer;
pub mod codec;
pub mod error;
pub mod framing;
pub mod packets;
pub mod reader;
pub mod wire;
