//! Ingest-and-fan-out core of a live video node.
//!
//! One publisher uploads audio and video over RTMP. The node frames what it
//! receives as FLV, feeds an encoder process, and forwards what the encoder
//! emits to any number of relay processes. This crate holds the rules of that
//! pipeline: the FLV framing, the arguments of the child processes, the
//! admission of publishers, the relay table, the sequence-header cache and the
//! decisions taken on each protocol event. Sockets, child processes and timers
//! belong to the program around it.

pub mod config;
pub mod db;
pub mod events;
pub mod rtmp;
pub mod text;
