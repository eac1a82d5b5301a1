//! One publishing session: what the node makes of what the protocol engine
//! hands out, and what it asks of the engine in turn. The engine itself is
//! driven by the program, which hands its answers in as plain values.

use crate::events::{AppEvents, Notification, Payload};
use crate::rtmp::flv::{
    copy_bytes, flv_tag, flv_tag_bytes, FlvTagType, StreamInfo, MAX_PAYLOAD_LEN,
};
use vstd::prelude::*;
use vstd::string::*;

verus! {

/// What an event of the protocol engine holds that the node acts on. At
/// most one of the parts is there.
#[derive(Debug, Clone)]
pub struct EventParts {
    /// A connection request or, with a stream key, a publish request: the
    /// id to answer with, the application's name and the key.
    pub request: Option<(u32, String, Option<String>)>,
    /// The key of a stream whose publishing ended.
    pub finished: Option<String>,
    /// A media payload with its timestamp; the flag tells video from audio.
    pub media: Option<(bool, Vec<u8>, u32)>,
    /// What was announced of the stream.
    pub metadata: Option<StreamInfo>,
}

/// One result of the protocol engine, in plain values.
#[derive(Debug, Clone)]
pub enum RawOutput {
    /// The bytes of a packet for the publisher.
    Packet(Vec<u8>),
    /// An event.
    Event(EventParts),
    /// A message that the engine could not handle.
    Unhandleable,
}

/// Something to ask of the protocol engine.
#[derive(Debug, Clone)]
pub enum EngineRequest {
    /// To accept the request with this id.
    Accept { request_id: u32 },
    /// To reject the request with this id, with a code and a description
    /// for the publisher.
    Reject { request_id: u32, code: String, description: String },
}

/// An event that the protocol engine raises, reduced to what the node acts
/// on.
#[derive(Debug, Clone)]
pub enum SessionEvent {
    ConnectionRequested { request_id: u32, app_name: String },
    PublishStreamRequested { request_id: u32, stream_key: String },
    PublishStreamFinished { stream_key: String },
    StreamMetadataChanged { metadata: StreamInfo },
    AudioDataReceived { data: Vec<u8>, timestamp: u32 },
    VideoDataReceived { data: Vec<u8>, timestamp: u32 },
    /// Any other event: it is ignored.
    Other,
}

/// One result of feeding bytes to the protocol engine.
#[derive(Debug, Clone)]
pub enum SessionOutput {
    /// Bytes to send to the publisher.
    OutboundResponse(Vec<u8>),
    /// Something happened that the node may act on.
    RaisedEvent(SessionEvent),
    /// A message that the engine could not handle: it is skipped.
    UnhandleableMessageReceived,
}

/// Why a session ended in failure.
#[derive(Debug, Clone)]
pub enum SessionError {
    /// The engine could not be set up.
    Setup(String),
    /// The engine refused what the publisher sent.
    Input(String),
    /// The engine refused to accept or reject a request.
    Request(String),
}

/// What the node does about one event.
#[derive(Debug, Clone)]
pub enum EventAction {
    /// Accept the request and send the publisher the answer.
    Accept { request_id: u32 },
    /// Start the encoder, then settle the request by how that went.
    StartEncoder { request_id: u32 },
    /// Write the tag to the encoder's input, if the encoder has one.
    FeedEncoder { tag: Vec<u8> },
    /// Stop the encoder and announce that the stream ended.
    StopEncoder { stream_key: String },
    /// Nothing.
    Ignore,
}

/// How a publish request is settled once the encoder was asked to start.
#[derive(Debug, Clone, Copy, PartialEq, Eq, Structural)]
pub enum PublishDecision {
    /// The encoder runs: announce `stream-active`, watch for the playlist,
    /// and accept the request.
    Accept,
    /// The encoder did not start: reject the request.
    Reject,
}

/// Whether the session loop goes on after a read.
#[derive(Debug, Clone, Copy, PartialEq, Eq, Structural)]
pub enum ReadOutcome {
    /// The publisher closed the connection: the session ends cleanly.
    Disconnected,
    /// The bytes wait to be processed.
    Buffered,
}

/// The code sent with the rejection of a publish request.
pub open spec fn reject_code_text() -> Seq<char> {
    "01"@
}

/// The description sent with the rejection of a publish request.
pub open spec fn reject_description_text() -> Seq<char> {
    "Failed to start FFMPEG"@
}

pub fn reject_code() -> (code: &'static str)
    ensures
        code@ == reject_code_text(),
{
    "01"
}

pub fn reject_description() -> (description: &'static str)
    ensures
        description@ == reject_description_text(),
{
    "Failed to start FFMPEG"
}

/// The action that an event calls for. A connection request is accepted. A
/// publish request starts the encoder. Audio and video are framed as FLV
/// tags for the encoder, at the timestamp they came with; a payload too long
/// for a tag is dropped. The end of publishing stops the encoder. Metadata
/// and everything else change nothing.
pub open spec fn action_fits(event: SessionEvent, action: EventAction) -> bool {
    match event {
        SessionEvent::ConnectionRequested { request_id, .. } => action == (EventAction::Accept {
            request_id,
        }),
        SessionEvent::PublishStreamRequested { request_id, .. } => action == (
        EventAction::StartEncoder { request_id }),
        SessionEvent::PublishStreamFinished { stream_key } => action matches EventAction::StopEncoder {
            stream_key: key,
        } && key@ == stream_key@,
        SessionEvent::AudioDataReceived { data, timestamp } => media_action_fits(
            FlvTagType::Audio,
            data@,
            timestamp,
            action,
        ),
        SessionEvent::VideoDataReceived { data, timestamp } => media_action_fits(
            FlvTagType::Video,
            data@,
            timestamp,
            action,
        ),
        SessionEvent::StreamMetadataChanged { .. } => action is Ignore,
        SessionEvent::Other => action is Ignore,
    }
}

/// The action for a media payload: the tag that frames it, if it fits one.
pub open spec fn media_action_fits(
    tag_type: FlvTagType,
    data: Seq<u8>,
    timestamp: u32,
    action: EventAction,
) -> bool {
    if data.len() < MAX_PAYLOAD_LEN {
        action matches EventAction::FeedEncoder { tag } && tag@ == flv_tag_bytes(
            tag_type,
            timestamp,
            data,
        )
    } else {
        action is Ignore
    }
}

fn media_action(tag_type: FlvTagType, data: &Vec<u8>, timestamp: u32) -> (action: EventAction)
    ensures
        media_action_fits(tag_type, data@, timestamp, action),
{
    if data.len() < MAX_PAYLOAD_LEN {
        EventAction::FeedEncoder { tag: flv_tag(tag_type, timestamp, data.as_slice()) }
    } else {
        EventAction::Ignore
    }
}

/// Decides what to do about one event.
pub fn handle_session_event(event: SessionEvent) -> (action: EventAction)
    ensures
        action_fits(event, action),
{
    match event {
        SessionEvent::ConnectionRequested { request_id, .. } => EventAction::Accept { request_id },
        SessionEvent::PublishStreamRequested { request_id, .. } => EventAction::StartEncoder {
            request_id,
        },
        SessionEvent::PublishStreamFinished { stream_key } => EventAction::StopEncoder {
            stream_key,
        },
        SessionEvent::AudioDataReceived { data, timestamp } => media_action(
            FlvTagType::Audio,
            &data,
            timestamp,
        ),
        SessionEvent::VideoDataReceived { data, timestamp } => media_action(
            FlvTagType::Video,
            &data,
            timestamp,
        ),
        SessionEvent::StreamMetadataChanged { .. } => EventAction::Ignore,
        SessionEvent::Other => EventAction::Ignore,
    }
}

/// Settles a publish request: accepted if the encoder started, rejected if
/// it did not.
pub fn publish_decision(encoder_started: bool) -> (decision: PublishDecision)
    ensures
        decision == if encoder_started {
            PublishDecision::Accept
        } else {
            PublishDecision::Reject
        },
{
    if encoder_started {
        PublishDecision::Accept
    } else {
        PublishDecision::Reject
    }
}

/// The packets among `outputs` that go to the publisher, in their order.
pub open spec fn outbound_of(outputs: Seq<SessionOutput>) -> Seq<Seq<u8>>
    decreases outputs.len(),
{
    if outputs.len() == 0 {
        Seq::empty()
    } else {
        let before = outbound_of(outputs.drop_last());
        match outputs.last() {
            SessionOutput::OutboundResponse(bytes) => before.push(bytes@),
            _ => before,
        }
    }
}

/// Picks the packets that go to the publisher. Events and unhandled
/// messages among `outputs` are passed over.
pub fn outbound_packets(outputs: &Vec<SessionOutput>) -> (packets: Vec<Vec<u8>>)
    ensures
        crate::text::chunks(packets@) == outbound_of(outputs@),
{
    let mut packets: Vec<Vec<u8>> = Vec::new();
    let mut i: usize = 0;
    assert(outputs@.subrange(0, 0) =~= Seq::<SessionOutput>::empty());
    while i < outputs.len()
        invariant
            i <= outputs.len(),
            crate::text::chunks(packets@) == outbound_of(outputs@.subrange(0, i as int)),
        decreases outputs.len() - i,
    {
        let ghost before = packets@;
        assert(outputs@.subrange(0, i + 1).drop_last() =~= outputs@.subrange(0, i as int));
        match &outputs[i] {
            SessionOutput::OutboundResponse(bytes) => {
                packets.push(copy_bytes(bytes.as_slice()));
                assert(crate::text::chunks(packets@) =~= crate::text::chunks(before).push(
                    bytes@,
                ));
            },
            _ => {},
        }
        i = i + 1;
    }
    assert(outputs@.subrange(0, outputs.len() as int) =~= outputs@);
    packets
}

/// The event that the parts of a raised event make up. `request` is a
/// connection request or, with a stream key, a publish request; `finished`
/// the key of a stream whose publishing ended; `media` a payload with its
/// timestamp, video if the flag is set and audio if not; `metadata` what
/// was announced of the stream. The first part that is there decides, in
/// this order; with none of them there the event is `Other`.
pub open spec fn event_of(
    request: Option<(u32, String, Option<String>)>,
    finished: Option<String>,
    media: Option<(bool, Vec<u8>, u32)>,
    metadata: Option<StreamInfo>,
) -> SessionEvent {
    match request {
        Some((request_id, app_name, Some(stream_key))) => SessionEvent::PublishStreamRequested {
            request_id,
            stream_key,
        },
        Some((request_id, app_name, None)) => SessionEvent::ConnectionRequested {
            request_id,
            app_name,
        },
        None => match finished {
            Some(stream_key) => SessionEvent::PublishStreamFinished { stream_key },
            None => match media {
                Some((true, data, timestamp)) => SessionEvent::VideoDataReceived { data, timestamp },
                Some((false, data, timestamp)) => SessionEvent::AudioDataReceived {
                    data,
                    timestamp,
                },
                None => match metadata {
                    Some(metadata) => SessionEvent::StreamMetadataChanged { metadata },
                    None => SessionEvent::Other,
                },
            },
        },
    }
}

/// The node's event for one that the engine raised, put together from the
/// parts that were taken out of it.
pub fn session_event(
    request: Option<(u32, String, Option<String>)>,
    finished: Option<String>,
    media: Option<(bool, Vec<u8>, u32)>,
    metadata: Option<StreamInfo>,
) -> (converted: SessionEvent)
    ensures
        converted == event_of(request, finished, media, metadata),
{
    if let Some((request_id, app_name, stream_key)) = request {
        match stream_key {
            Some(stream_key) => SessionEvent::PublishStreamRequested { request_id, stream_key },
            None => SessionEvent::ConnectionRequested { request_id, app_name },
        }
    } else if let Some(stream_key) = finished {
        SessionEvent::PublishStreamFinished { stream_key }
    } else if let Some((is_video, data, timestamp)) = media {
        if is_video {
            SessionEvent::VideoDataReceived { data, timestamp }
        } else {
            SessionEvent::AudioDataReceived { data, timestamp }
        }
    } else if let Some(metadata) = metadata {
        SessionEvent::StreamMetadataChanged { metadata }
    } else {
        SessionEvent::Other
    }
}

/// The node's output for one result of the engine: a packet goes to the
/// publisher, an event becomes the node's event, and a message that the
/// engine could not handle is passed on as such.
pub open spec fn output_of(raw: RawOutput) -> SessionOutput {
    match raw {
        RawOutput::Packet(bytes) => SessionOutput::OutboundResponse(bytes),
        RawOutput::Event(parts) => SessionOutput::RaisedEvent(
            event_of(parts.request, parts.finished, parts.media, parts.metadata),
        ),
        RawOutput::Unhandleable => SessionOutput::UnhandleableMessageReceived,
    }
}

/// The node's outputs for the results of the engine, one for one.
pub open spec fn outputs_of(raw: Seq<RawOutput>) -> Seq<SessionOutput> {
    raw.map_values(|result: RawOutput| output_of(result))
}

/// Turns the results of the engine into the node's outputs, in order.
pub fn session_outputs(raw: Vec<RawOutput>) -> (outputs: Vec<SessionOutput>)
    ensures
        outputs@ == outputs_of(raw@),
{
    let mut rest = raw;
    let mut outputs: Vec<SessionOutput> = Vec::new();
    while rest.len() > 0
        invariant
            outputs@.len() + rest@.len() == raw@.len(),
            rest@ == raw@.subrange(outputs@.len() as int, raw@.len() as int),
            outputs@ == outputs_of(raw@.subrange(0, outputs@.len() as int)),
        decreases rest@.len(),
    {
        let ghost done = outputs@.len() as int;
        let output = match rest.remove(0) {
            RawOutput::Packet(bytes) => SessionOutput::OutboundResponse(bytes),
            RawOutput::Event(parts) => SessionOutput::RaisedEvent(
                session_event(parts.request, parts.finished, parts.media, parts.metadata),
            ),
            RawOutput::Unhandleable => SessionOutput::UnhandleableMessageReceived,
        };
        assert(output == output_of(raw@[done]));
        outputs.push(output);
        assert(rest@ =~= raw@.subrange(done + 1, raw@.len() as int));
        assert(outputs@ =~= outputs_of(raw@.subrange(0, done + 1)));
    }
    assert(raw@.subrange(0, raw@.len() as int) =~= raw@);
    outputs
}

/// One step of bringing a stream up.
#[derive(Debug, Clone)]
pub enum PublishStep {
    /// Start to watch for the playlist, and announce the preview by what
    /// the watch finds.
    WatchPlaylist,
    /// Publish the notification.
    Announce(Notification),
}

/// What is done once the encoder was asked to start for a publish request,
/// before the request is settled. If the encoder runs, `stream-active` is
/// announced, once, and then the watch for the playlist begins, so that
/// nothing the watch announces comes first. If it does not run, nothing is
/// done.
pub open spec fn publish_steps_of(encoder_started: bool) -> Seq<PublishStep> {
    if encoder_started {
        seq![
            PublishStep::Announce(
                Notification { event: AppEvents::StreamActive, payload: Payload::Empty },
            ),
            PublishStep::WatchPlaylist,
        ]
    } else {
        Seq::empty()
    }
}

/// The steps to take once the encoder was asked to start.
pub fn publish_steps(encoder_started: bool) -> (steps: Vec<PublishStep>)
    ensures
        steps@ == publish_steps_of(encoder_started),
{
    let mut steps: Vec<PublishStep> = Vec::new();
    if encoder_started {
        steps.push(
            PublishStep::Announce(
                Notification { event: AppEvents::StreamActive, payload: Payload::Empty },
            ),
        );
        steps.push(PublishStep::WatchPlaylist);
    }
    steps
}

/// Whether `result` hands on what the engine answered: its results as the
/// node's outputs, or its refusal as an error of the given kind.
pub open spec fn hands_on(
    answer: Result<Vec<RawOutput>, String>,
    result: Result<Vec<SessionOutput>, SessionError>,
    of_input: bool,
) -> bool {
    match answer {
        Ok(raw) => result matches Ok(outputs) && outputs@ == outputs_of(raw@),
        Err(words) => result == Err::<Vec<SessionOutput>, SessionError>(
            if of_input {
                SessionError::Input(words)
            } else {
                SessionError::Request(words)
            },
        ),
    }
}

/// What is asked of the engine to settle a publish request: to accept it if
/// the encoder started, and if not to reject it with the code "01" and the
/// description "Failed to start FFMPEG".
pub open spec fn publish_request_fits(
    request_id: u32,
    encoder_started: bool,
    request: EngineRequest,
) -> bool {
    if encoder_started {
        request == (EngineRequest::Accept { request_id })
    } else {
        &&& request matches EngineRequest::Reject { request_id: id, code, description }
        &&& id == request_id
        &&& code@ == reject_code_text()
        &&& description@ == reject_description_text()
    }
}

/// Says what to ask of the engine to settle a publish request once the
/// encoder was asked to start.
pub fn publish_request(request_id: u32, encoder_started: bool) -> (request: EngineRequest)
    ensures
        publish_request_fits(request_id, encoder_started, request),
{
    match publish_decision(encoder_started) {
        PublishDecision::Accept => EngineRequest::Accept { request_id },
        PublishDecision::Reject => EngineRequest::Reject {
            request_id,
            code: String::from_str(reject_code()),
            description: String::from_str(reject_description()),
        },
    }
}

/// Takes the engine's answer to the acceptance of a request: what it
/// answered goes to the publisher; if it knew no such request the session
/// is over.
pub fn accept_request(answer: Result<Vec<RawOutput>, String>) -> (result: Result<
    Vec<SessionOutput>,
    SessionError,
>)
    ensures
        hands_on(answer, result, false),
{
    match answer {
        Ok(raw) => Ok(session_outputs(raw)),
        Err(words) => Err(SessionError::Request(words)),
    }
}

/// What is sent after a rejection: what the engine answered, or nothing if
/// it refused to reject.
pub open spec fn rejection_outputs(answer: Result<Vec<RawOutput>, String>) -> Seq<SessionOutput> {
    match answer {
        Ok(raw) => outputs_of(raw@),
        Err(_) => Seq::empty(),
    }
}

/// Takes the engine's answer to what `publish_request` said to ask. If the
/// encoder started, the answer to the acceptance is handed on as by
/// `accept_request`. If not, the rejection that the engine answered with
/// goes to the publisher; should the engine have known no such request,
/// nothing is sent. Either way the session goes on after a failed start.
pub fn conclude_publish(encoder_started: bool, answer: Result<Vec<RawOutput>, String>) -> (result:
    Result<Vec<SessionOutput>, SessionError>)
    ensures
        encoder_started ==> hands_on(answer, result, false),
        !encoder_started ==> (result matches Ok(outputs) && outputs@ == rejection_outputs(answer)),
{
    match publish_decision(encoder_started) {
        PublishDecision::Accept => accept_request(answer),
        PublishDecision::Reject => match answer {
            Ok(raw) => Ok(session_outputs(raw)),
            Err(_) => Ok(Vec::new()),
        },
    }
}

/// Whether `started` is the start of a session from what the engine opened
/// the conversation with: its results as the node's outputs, with
/// `remaining` waiting to be processed; or its refusal as an error.
pub open spec fn start_fits(
    remaining: Seq<u8>,
    opened: Result<Vec<RawOutput>, String>,
    started: Result<(SessionPump, Vec<SessionOutput>), SessionError>,
) -> bool {
    match opened {
        Ok(opening) => {
            &&& started matches Ok((pump, outputs))
            &&& pump.pending() == remaining
            &&& outputs@ == outputs_of(opening@)
        },
        Err(words) => started matches Err(error) && error == SessionError::Setup(words),
    }
}

/// The bytes of one session that wait for the protocol engine.
pub struct SessionPump {
    pending: Vec<u8>,
}

impl SessionPump {
    /// The bytes received and not yet processed.
    pub closed spec fn pending(&self) -> Seq<u8> {
        self.pending@
    }

    /// Starts a session from what the engine answered when it was set up.
    /// `remaining` is what the handshake left over; it waits to be
    /// processed.
    pub fn start(remaining: Vec<u8>, opened: Result<Vec<RawOutput>, String>) -> (started: Result<
        (SessionPump, Vec<SessionOutput>),
        SessionError,
    >)
        ensures
            start_fits(remaining@, opened, started),
    {
        match opened {
            Ok(opening) => Ok((SessionPump { pending: remaining }, session_outputs(opening))),
            Err(words) => Err(SessionError::Setup(words)),
        }
    }

    /// Whether the loop has to read from the socket before it can process.
    pub fn needs_input(&self) -> (needed: bool)
        ensures
            needed == (self.pending().len() == 0),
    {
        self.pending.len() == 0
    }

    /// Takes what a read returned. An empty read means that the publisher
    /// is gone.
    pub fn on_read(&mut self, chunk: &[u8]) -> (outcome: ReadOutcome)
        ensures
            chunk@.len() == 0 ==> outcome == ReadOutcome::Disconnected && final(self).pending()
                == old(self).pending(),
            chunk@.len() > 0 ==> outcome == ReadOutcome::Buffered && final(self).pending() == old(self).pending() + chunk@,
    {
        if chunk.len() == 0 {
            ReadOutcome::Disconnected
        } else {
            crate::rtmp::flv::push_bytes(&mut self.pending, chunk);
            ReadOutcome::Buffered
        }
    }

    /// The bytes to hand to the engine: all that wait.
    pub fn waiting(&self) -> (bytes: &[u8])
        ensures
            bytes@ == self.pending(),
    {
        self.pending.as_slice()
    }

    /// Takes the engine's answer to the waiting bytes and hands it on.
    /// Once the engine took them, none wait any more; if it refused them
    /// they stay, and the session is over.
    pub fn on_answer(&mut self, answer: Result<Vec<RawOutput>, String>) -> (processed: Result<
        Vec<SessionOutput>,
        SessionError,
    >)
        ensures
            hands_on(answer, processed, true),
            answer is Ok ==> final(self).pending().len() == 0,
            answer is Err ==> final(self).pending() == old(self).pending(),
    {
        match answer {
            Ok(raw) => {
                self.pending.clear();
                Ok(session_outputs(raw))
            },
            Err(words) => Err(SessionError::Input(words)),
        }
    }
}

} // verus!
