//! Admission of one connection: the RTMP handshake, step by step.

use crate::rtmp::flv::push_bytes;
use crate::rtmp::handshake_engine::{
    new_server_handshake, process_handshake_bytes, HandshakeCall, HandshakeEngine,
};
use crate::text::{decimal, push_decimal};
use vstd::prelude::*;
use vstd::string::*;

verus! {

/// What the handshake engine made of the bytes it was given.
#[derive(Debug, Clone)]
pub enum HandshakeProgress {
    /// More is needed. The response, which may be empty, goes to the peer.
    InProgress { response_bytes: Vec<u8> },
    /// The handshake is complete. What the peer sent beyond it is handed
    /// back.
    Completed { response_bytes: Vec<u8>, remaining_bytes: Vec<u8> },
}

/// Why a connection did not get through the handshake.
#[derive(Debug, Clone)]
pub enum HandshakeError {
    /// The peer closed the connection before the handshake was complete.
    ConnectionClosed,
    /// The engine refused what the peer sent; its words are kept.
    Rejected(String),
}

/// What to do after a read during the handshake.
#[derive(Debug, Clone)]
pub enum HandshakeStep {
    /// Send the response and read on.
    Continue { response: Vec<u8> },
    /// Send the response and start the session with what remained.
    Complete { response: Vec<u8>, remaining: Vec<u8> },
}

/// The step that follows from the engine's answer. While the handshake is
/// in progress the response is sent and the bytes received so far are
/// forgotten, the engine having kept what it needs. Once it is complete the
/// response is sent and the session starts with what remained. An error
/// ends the connection.
pub open spec fn step_fits(
    progress: Result<HandshakeProgress, String>,
    received_before: Seq<u8>,
    received_after: Seq<u8>,
    step: Result<HandshakeStep, HandshakeError>,
) -> bool {
    match progress {
        Ok(HandshakeProgress::InProgress { response_bytes }) => {
            &&& step matches Ok(HandshakeStep::Continue { response })
            &&& response@ == response_bytes@
            &&& received_after.len() == 0
        },
        Ok(HandshakeProgress::Completed { response_bytes, remaining_bytes }) => {
            &&& step matches Ok(HandshakeStep::Complete { response, remaining })
            &&& response@ == response_bytes@
            &&& remaining@ == remaining_bytes@
            &&& received_after == received_before
        },
        Err(words) => {
            &&& step matches Err(HandshakeError::Rejected(kept))
            &&& kept@ == words@
            &&& received_after == received_before
        },
    }
}

/// Decides the step that follows from the engine's answer to `received`.
pub fn handshake_step(progress: Result<HandshakeProgress, String>, received: &mut Vec<u8>) -> (step:
    Result<HandshakeStep, HandshakeError>)
    ensures
        step_fits(progress, old(received)@, final(received)@, step),
{
    match progress {
        Ok(HandshakeProgress::InProgress { response_bytes }) => {
            received.clear();
            Ok(HandshakeStep::Continue { response: response_bytes })
        },
        Ok(HandshakeProgress::Completed { response_bytes, remaining_bytes }) => Ok(
            HandshakeStep::Complete { response: response_bytes, remaining: remaining_bytes },
        ),
        Err(words) => Err(HandshakeError::Rejected(words)),
    }
}

/// The handshake of one connection: the engine and the bytes received since
/// its last sign of progress.
pub struct HandshakeDriver {
    engine: HandshakeEngine,
    received: Vec<u8>,
}

impl HandshakeDriver {
    /// The bytes received since the engine last reported progress.
    pub closed spec fn received(&self) -> Seq<u8> {
        self.received@
    }

    /// All that was handed to the engine, with what it answered, in order.
    pub closed spec fn calls(&self) -> Seq<HandshakeCall> {
        self.engine.calls()
    }

    /// Whether the engine was asked once more between `before` and `after`:
    /// it was handed `bytes`, and `step` with the bytes kept in `kept` is
    /// what follows from its answer.
    pub open spec fn asked(
        before: Seq<HandshakeCall>,
        after: Seq<HandshakeCall>,
        bytes: Seq<u8>,
        kept: Seq<u8>,
        step: Result<HandshakeStep, HandshakeError>,
    ) -> bool {
        &&& after.len() == before.len() + 1
        &&& after.drop_last() == before
        &&& after.last().bytes == bytes
        &&& step_fits(after.last().answer, bytes, kept, step)
    }

    /// A handshake that has seen nothing yet.
    pub fn new() -> (driver: Self)
        ensures
            driver.received().len() == 0,
            driver.calls().len() == 0,
    {
        HandshakeDriver { engine: new_server_handshake(), received: Vec::new() }
    }

    /// Takes what a read returned. An empty read means that the peer is
    /// gone, and the engine is not asked. Anything else is added to what
    /// was received and all of that is handed to the engine, whose answer
    /// decides the step.
    pub fn on_read(&mut self, chunk: &[u8]) -> (step: Result<HandshakeStep, HandshakeError>)
        ensures
            chunk@.len() == 0 ==> {
                &&& step == Err::<HandshakeStep, HandshakeError>(HandshakeError::ConnectionClosed)
                &&& final(self).received() == old(self).received()
                &&& final(self).calls() == old(self).calls()
            },
            chunk@.len() > 0 ==> Self::asked(
                old(self).calls(),
                final(self).calls(),
                old(self).received() + chunk@,
                final(self).received(),
                step,
            ),
    {
        if chunk.len() == 0 {
            return Err(HandshakeError::ConnectionClosed);
        }
        push_bytes(&mut self.received, chunk);
        let progress = process_handshake_bytes(&mut self.engine, self.received.as_slice());
        assert(self.engine.calls().drop_last() =~= old(self).engine.calls());
        handshake_step(progress, &mut self.received)
    }
}

/// The address on which the node listens for publishers: every interface,
/// at the RTMP port.
pub open spec fn rtmp_bind_address_text(port: u16) -> Seq<char> {
    "0.0.0.0:"@ + decimal(port as nat)
}

pub fn rtmp_bind_address(port: u16) -> (address: String)
    ensures
        address@ == rtmp_bind_address_text(port),
{
    let mut address = String::from_str("0.0.0.0:");
    push_decimal(&mut address, port as u64);
    address
}

} // verus!
