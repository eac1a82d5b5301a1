//! The RTMP side of the node: framing, the encoder, the relays and the
//! publishing session.

pub mod flv;
pub mod session;
pub mod encoder;
pub mod relay;
pub mod fanout;
pub mod handshake;
pub mod handshake_engine;
pub mod pipeline;
