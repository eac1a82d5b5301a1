//! The records that the store keeps: encoder settings and relay targets.

use crate::config::{mask_key, maskable, masked};
use vstd::prelude::*;
use vstd::string::*;

verus! {

/// How the encoder is to treat the stream.
#[derive(Debug, Clone)]
pub struct EncoderSettings {
    pub video_bitrate: u32,
    pub audio_bitrate: u32,
    pub video_codec: String,
    pub audio_codec: String,
    pub preset: String,
    pub tune: Option<String>,
    pub bufsize: Option<u32>,
    pub framerate: Option<u32>,
    pub resolution: Option<String>,
    pub use_passthrough: bool,
}

/// A downstream RTMP endpoint to republish to.
#[derive(Debug, Clone)]
pub struct RelayTarget {
    pub id: i64,
    pub tag: String,
    pub stream_key: String,
    pub url: String,
    pub enabled: bool,
    pub created_at: Option<String>,
}

/// A relay target as it may be shown: the stream key is masked.
#[derive(Debug, Clone)]
pub struct RelayTargetPublic {
    pub id: i64,
    pub tag: String,
    pub stream_key: String,
    pub url: String,
    pub enabled: bool,
    pub created_at: Option<String>,
}

/// What an optional string holds, if anything.
pub open spec fn optional_text(value: Option<String>) -> Option<Seq<char>> {
    match value {
        Some(text) => Some(text@),
        None => None,
    }
}

/// The settings of a node that has none stored: pass the stream through, and
/// for the day that is switched off, x264 at 6000 kbit/s with AAC at 160.
pub open spec fn is_default_settings(settings: EncoderSettings) -> bool {
    &&& settings.video_bitrate == 6000
    &&& settings.audio_bitrate == 160
    &&& settings.video_codec@ == "libx264"@
    &&& settings.audio_codec@ == "aac"@
    &&& settings.preset@ == "veryfast"@
    &&& optional_text(settings.tune) == Some("zerolatency"@)
    &&& settings.bufsize == Some(8000u32)
    &&& settings.framerate is None
    &&& settings.resolution is None
    &&& settings.use_passthrough
}

pub fn default_encoder_settings() -> (settings: EncoderSettings)
    ensures
        is_default_settings(settings),
{
    EncoderSettings {
        video_bitrate: 6000,
        audio_bitrate: 160,
        video_codec: String::from_str("libx264"),
        audio_codec: String::from_str("aac"),
        preset: String::from_str("veryfast"),
        tune: Some(String::from_str("zerolatency")),
        bufsize: Some(8000),
        framerate: None,
        resolution: None,
        use_passthrough: true,
    }
}

pub(crate) fn clone_optional_text(value: &Option<String>) -> (copy: Option<String>)
    ensures
        copy == *value,
{
    match value {
        Some(text) => Some(text.clone()),
        None => None,
    }
}

impl RelayTargetPublic {
    /// Whether `shown` is `target` with nothing changed but the stream key,
    /// which is masked.
    pub open spec fn shows(shown: RelayTargetPublic, target: RelayTarget) -> bool {
        &&& shown.id == target.id
        &&& shown.tag@ == target.tag@
        &&& shown.stream_key@ == masked(target.stream_key@)
        &&& shown.url@ == target.url@
        &&& shown.enabled == target.enabled
        &&& optional_text(shown.created_at) == optional_text(target.created_at)
    }

    pub fn from_relay_target(relay_target: &RelayTarget) -> (shown: Self)
        requires
            maskable(relay_target.stream_key@),
        ensures
            Self::shows(shown, *relay_target),
    {
        Self {
            id: relay_target.id,
            tag: relay_target.tag.clone(),
            stream_key: mask_key(relay_target.stream_key.as_str()),
            url: relay_target.url.clone(),
            enabled: relay_target.enabled,
            created_at: clone_optional_text(&relay_target.created_at),
        }
    }
}

/// Whether every stream key of `targets` can be masked.
pub open spec fn all_maskable(targets: Seq<RelayTarget>) -> bool {
    forall|i: int| 0 <= i < targets.len() ==> maskable(#[trigger] targets[i].stream_key@)
}

/// The targets as they may be shown, in their order.
pub fn public_relay_targets(targets: &Vec<RelayTarget>) -> (shown: Vec<RelayTargetPublic>)
    requires
        all_maskable(targets@),
    ensures
        shown@.len() == targets@.len(),
        forall|i: int|
            0 <= i < targets@.len() ==> RelayTargetPublic::shows(#[trigger] shown@[i], targets@[i]),
{
    let mut shown: Vec<RelayTargetPublic> = Vec::new();
    let mut i: usize = 0;
    while i < targets.len()
        invariant
            i <= targets.len(),
            all_maskable(targets@),
            shown@.len() == i,
            forall|k: int| 0 <= k < i ==> RelayTargetPublic::shows(#[trigger] shown@[k], targets@[k]),
        decreases targets.len() - i,
    {
        shown.push(RelayTargetPublic::from_relay_target(&targets[i]));
        i = i + 1;
    }
    shown
}

} // verus!
