//! The fan-out of what the encoder emits: which chunks are kept as
//! sequence headers, and when the reader stops.

use crate::rtmp::flv::{
    copy_bytes, is_aac_sequence_header, is_audio_aac_sequence_header, is_avc_sequence_header,
    is_sequence_header, is_video_keyframe_avc_sequence_header,
};
use crate::text::chunks;
use vstd::prelude::*;

verus! {

/// The encoder's output is read in chunks of at most this many bytes.
pub const CHUNK_SIZE: usize = 4096;

/// How many chunks the bus holds for a consumer that lags.
pub const BUS_CAPACITY: usize = 512;

/// What the reader of the encoder's output does after a read.
#[derive(Debug, Clone, Copy, PartialEq, Eq, Structural)]
pub enum FanoutStep {
    /// The encoder closed its output: the reader ends.
    Stop,
    /// The chunk goes to every relay that is registered. `cached` tells
    /// whether it was also kept as a sequence header.
    Forward { cached: bool },
}

/// The cache after a chunk was seen: a sequence header is appended, anything
/// else leaves the cache as it is.
pub open spec fn observe(cache: Seq<Seq<u8>>, chunk: Seq<u8>) -> Seq<Seq<u8>> {
    if is_sequence_header(chunk) {
        cache.push(chunk)
    } else {
        cache
    }
}

/// The cache after all of `emitted` was seen, starting from `cache`.
pub open spec fn observe_all(cache: Seq<Seq<u8>>, emitted: Seq<Seq<u8>>) -> Seq<Seq<u8>>
    decreases emitted.len(),
{
    if emitted.len() == 0 {
        cache
    } else {
        observe(observe_all(cache, emitted.drop_last()), emitted.last())
    }
}

/// No chunk is both a video and an audio sequence header.
pub proof fn sequence_headers_exclude_each_other(chunk: Seq<u8>)
    ensures
        !(is_avc_sequence_header(chunk) && is_aac_sequence_header(chunk)),
{
}

/// Takes what one read of the encoder's output returned. An empty read ends
/// the reader. Any other chunk is forwarded, after being appended to the
/// cache if it is a sequence header.
pub fn handle_chunk(headers: &mut Vec<Vec<u8>>, chunk: &[u8]) -> (step: FanoutStep)
    ensures
        chunk@.len() == 0 ==> step == FanoutStep::Stop && final(headers)@ == old(headers)@,
        chunk@.len() > 0 ==> step == (FanoutStep::Forward { cached: is_sequence_header(chunk@) })
            && chunks(final(headers)@) == observe(chunks(old(headers)@), chunk@),
{
    if chunk.len() == 0 {
        return FanoutStep::Stop;
    }
    let video = is_video_keyframe_avc_sequence_header(chunk);
    let audio = is_audio_aac_sequence_header(chunk);
    if video {
        headers.push(copy_bytes(chunk));
    }
    if audio {
        headers.push(copy_bytes(chunk));
    }
    assert(chunks(headers@) =~= observe(chunks(old(headers)@), chunk@));
    FanoutStep::Forward { cached: video || audio }
}

} // verus!
