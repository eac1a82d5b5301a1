//! The handshake engine of a connection, and the record of what was asked
//! of it. Only the functions of this file reach the engine, so the record
//! can grow by nothing but a call.

use crate::rtmp::handshake::HandshakeProgress;
use rml_rtmp::handshake::{Handshake, HandshakeProcessResult, PeerType};
use vstd::prelude::*;

verus! {

#[verifier::external_type_specification]
#[verifier::external_body]
pub struct ExHandshake(Handshake);

/// Bytes that were handed to the engine, with what it answered: its
/// progress, or its own words for why it refused them.
pub struct HandshakeCall {
    pub bytes: Seq<u8>,
    pub answer: Result<HandshakeProgress, String>,
}

/// The handshake engine of one connection.
pub struct HandshakeEngine {
    handshake: Handshake,
    calls: Ghost<Seq<HandshakeCall>>,
}

impl HandshakeEngine {
    /// All that was handed to the engine since it was made, in order.
    pub closed spec fn calls(&self) -> Seq<HandshakeCall> {
        self.calls@
    }
}

/// A handshake engine for the server's side, made with
/// `Handshake::new(PeerType::Server)`. Nothing was asked of it yet.
#[verifier::external_body]
pub(crate) fn new_server_handshake() -> (engine: HandshakeEngine)
    ensures
        engine.calls() == Seq::<HandshakeCall>::empty(),
{
    HandshakeEngine { handshake: Handshake::new(PeerType::Server), calls: Ghost(Seq::empty()) }
}

/// Hands bytes to the engine with `Handshake::process_bytes` and notes the
/// call with its answer. The two kinds of progress are told apart, moving
/// the fields; an error is given in the engine's own words. The engine
/// answers with random data: nothing is claimed of the answer itself.
#[verifier::external_body]
pub(crate) fn process_handshake_bytes(engine: &mut HandshakeEngine, data: &[u8]) -> (progress:
    Result<HandshakeProgress, String>)
    ensures
        final(engine).calls() == old(engine).calls().push(
            (HandshakeCall { bytes: data@, answer: progress }),
        ),
{
    match engine.handshake.process_bytes(data) {
        Ok(HandshakeProcessResult::InProgress { response_bytes }) => {
            Ok(HandshakeProgress::InProgress { response_bytes })
        },
        Ok(HandshakeProcessResult::Completed { response_bytes, remaining_bytes }) => {
            Ok(HandshakeProgress::Completed { response_bytes, remaining_bytes })
        },
        Err(error) => Err(format!("{:?}", error)),
    }
}

} // verus!
