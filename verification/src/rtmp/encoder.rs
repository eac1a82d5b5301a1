//! The encoder process: its arguments, and what starting and stopping it
//! involves.

use crate::db::EncoderSettings;
use crate::events::{AppEvents, Notification, Payload};
use crate::text::{decimal, push_decimal, push_owned, push_word, texts};
use vstd::prelude::*;
use vstd::string::*;

verus! {

/// The buffer size in kbit/s where the settings name none.
pub const DEFAULT_BUFSIZE_KBPS: u32 = 8000;

/// A rate in the form the encoder reads: the number and the letter k.
pub open spec fn kbits(rate: u32) -> Seq<char> {
    decimal(rate as nat) + "k"@
}

/// The encoder reads FLV from its standard input.
pub open spec fn input_args() -> Seq<Seq<char>> {
    seq!["-f"@, "flv"@, "-i"@, "pipe:0"@]
}

/// The buffer size that applies: the one of the settings, or the default.
pub open spec fn bufsize_of(settings: EncoderSettings) -> u32 {
    match settings.bufsize {
        Some(size) => size,
        None => DEFAULT_BUFSIZE_KBPS,
    }
}

/// With passthrough both streams are copied. Without it the first video and
/// audio streams are encoded as the settings say, and the tune, if any,
/// comes last.
pub open spec fn codec_args(settings: EncoderSettings) -> Seq<Seq<char>> {
    if settings.use_passthrough {
        seq!["-c:v"@, "copy"@, "-c:a"@, "copy"@]
    } else {
        seq![
            "-map"@,
            "0:v"@,
            "-map"@,
            "0:a"@,
            "-c:v"@,
            settings.video_codec@,
            "-b:v"@,
            kbits(settings.video_bitrate),
            "-bufsize"@,
            kbits(bufsize_of(settings)),
            "-preset"@,
            settings.preset@,
            "-c:a"@,
            settings.audio_codec@,
            "-b:a"@,
            kbits(settings.audio_bitrate),
        ] + match settings.tune {
            Some(tune) => seq!["-tune"@, tune@],
            None => Seq::empty(),
        }
    }
}

/// The tee target: an HLS branch that writes the playlist with segments of
/// six seconds, eight of them listed and older ones deleted, and an FLV
/// branch on standard output.
pub open spec fn tee_output(playlist: Seq<char>) -> Seq<char> {
    "[f=hls:hls_time=6:hls_list_size=8:hls_flags=delete_segments]"@ + playlist
        + "|[f=flv]pipe:1"@
}

/// The output goes through the tee muxer.
pub open spec fn output_args(playlist: Seq<char>) -> Seq<Seq<char>> {
    seq!["-f"@, "tee"@, tee_output(playlist)]
}

/// All arguments of the encoder process, in order.
pub open spec fn encoder_args_text(settings: EncoderSettings, playlist: Seq<char>) -> Seq<
    Seq<char>,
> {
    input_args() + codec_args(settings) + output_args(playlist)
}

fn push_kbits(args: &mut Vec<String>, rate: u32)
    ensures
        texts(final(args)@) == texts(old(args)@).push(kbits(rate)),
{
    let mut word = String::new();
    push_decimal(&mut word, rate as u64);
    word.append("k");
    assert(word@ =~= kbits(rate));
    push_owned(args, word);
}

fn push_codec_args(args: &mut Vec<String>, settings: &EncoderSettings)
    ensures
        texts(final(args)@) == texts(old(args)@) + codec_args(*settings),
{
    if settings.use_passthrough {
        push_word(args, "-c:v");
        push_word(args, "copy");
        push_word(args, "-c:a");
        push_word(args, "copy");
        assert(texts(args@) =~= texts(old(args)@) + codec_args(*settings));
    } else {
        push_word(args, "-map");
        push_word(args, "0:v");
        push_word(args, "-map");
        push_word(args, "0:a");
        push_word(args, "-c:v");
        push_word(args, settings.video_codec.as_str());
        push_word(args, "-b:v");
        push_kbits(args, settings.video_bitrate);
        push_word(args, "-bufsize");
        let bufsize = match settings.bufsize {
            Some(size) => size,
            None => DEFAULT_BUFSIZE_KBPS,
        };
        push_kbits(args, bufsize);
        push_word(args, "-preset");
        push_word(args, settings.preset.as_str());
        push_word(args, "-c:a");
        push_word(args, settings.audio_codec.as_str());
        push_word(args, "-b:a");
        push_kbits(args, settings.audio_bitrate);
        match &settings.tune {
            Some(tune) => {
                push_word(args, "-tune");
                push_word(args, tune.as_str());
            },
            None => {},
        }
        assert(texts(args@) =~= texts(old(args)@) + codec_args(*settings));
    }
}

/// The arguments with which the encoder is spawned: FLV in on standard
/// input, the codecs of `settings`, and a tee of an HLS playlist at
/// `playlist` and FLV on standard output.
pub fn encoder_args(settings: &EncoderSettings, playlist: &str) -> (args: Vec<String>)
    ensures
        texts(args@) == encoder_args_text(*settings, playlist@),
{
    let mut args: Vec<String> = Vec::new();
    push_word(&mut args, "-f");
    push_word(&mut args, "flv");
    push_word(&mut args, "-i");
    push_word(&mut args, "pipe:0");
    assert(texts(args@) =~= input_args());
    push_codec_args(&mut args, settings);
    push_word(&mut args, "-f");
    push_word(&mut args, "tee");
    let mut output = String::from_str(
        "[f=hls:hls_time=6:hls_list_size=8:hls_flags=delete_segments]",
    );
    output.append(playlist);
    output.append("|[f=flv]pipe:1");
    assert(output@ =~= tee_output(playlist@));
    push_owned(&mut args, output);
    assert(texts(args@) =~= encoder_args_text(*settings, playlist@));
    args
}

/// What to do next while waiting for the playlist to appear.
#[derive(Debug, Clone, Copy, PartialEq, Eq, Structural)]
pub enum PollStep {
    /// Publish the notification and stop looking.
    Announce(AppEvents),
    /// Sleep for the poll interval and look again.
    Wait,
}

/// How often the playlist is looked for before the preview counts as
/// failed.
pub const PLAYLIST_POLL_ATTEMPTS: u32 = 50;

/// Milliseconds between two looks for the playlist.
pub const PLAYLIST_POLL_INTERVAL_MS: u64 = 500;

/// The step after `waits` sleeps: a playlist that is there makes the
/// preview active; one that is still missing after all attempts makes it
/// failed; otherwise the wait goes on.
pub open spec fn poll_step(waits: u32, playlist_exists: bool) -> PollStep {
    if playlist_exists {
        PollStep::Announce(AppEvents::StreamPreviewActive)
    } else if waits < PLAYLIST_POLL_ATTEMPTS {
        PollStep::Wait
    } else {
        PollStep::Announce(AppEvents::StreamPreviewFailed)
    }
}

/// Decides the next step of the wait for the playlist.
pub fn poll_playlist(waits: u32, playlist_exists: bool) -> (step: PollStep)
    ensures
        step == poll_step(waits, playlist_exists),
{
    if playlist_exists {
        PollStep::Announce(AppEvents::StreamPreviewActive)
    } else if waits < PLAYLIST_POLL_ATTEMPTS {
        PollStep::Wait
    } else {
        PollStep::Announce(AppEvents::StreamPreviewFailed)
    }
}

/// The name, inside the log directory, of the file that collects what the
/// encoder says.
pub fn encoder_log_name() -> (name: &'static str)
    ensures
        name@ == "ffmpeg_encoder.log"@,
{
    "ffmpeg_encoder.log"
}

/// The encoder of the session that publishes, if any: its process, the
/// writable end of its input, and the sequence headers it has emitted.
#[derive(Debug)]
pub struct EncoderState<C, W> {
    pub process: Option<C>,
    pub stdin: Option<W>,
    pub sequence_headers: Vec<Vec<u8>>,
}

/// One step of taking a stream down.
#[derive(Debug, Clone)]
pub enum TeardownStep {
    /// Publish the notification.
    Announce(Notification),
    /// Wait for the encoder process, which sees the end of its input, to
    /// exit.
    AwaitExit,
    /// Remove the directory with the playlist and its segments.
    RemovePreviewDirectory,
}

/// The steps after the encoder's input was closed: `stream-ended` with the
/// key of the stream, the wait for the process, `stream-preview-ended`, and
/// the removal of the preview.
pub open spec fn teardown_fits(stream_key: Seq<char>, steps: Seq<TeardownStep>) -> bool {
    &&& steps.len() == 4
    &&& steps[0] matches TeardownStep::Announce(ended)
    &&& ended.event == AppEvents::StreamEnded
    &&& ended.payload matches Payload::Stream(key)
    &&& key@ == stream_key
    &&& steps[1] is AwaitExit
    &&& steps[2] == TeardownStep::Announce(
        Notification { event: AppEvents::StreamPreviewEnded, payload: Payload::Empty },
    )
    &&& steps[3] is RemovePreviewDirectory
}

impl<C, W> EncoderState<C, W> {
    /// No encoder, and nothing cached.
    pub fn new() -> (state: Self)
        ensures
            state.process is None,
            state.stdin is None,
            state.sequence_headers@.len() == 0,
    {
        EncoderState { process: None, stdin: None, sequence_headers: Vec::new() }
    }

    /// Whether an encoder process is held.
    pub fn is_running(&self) -> (running: bool)
        ensures
            running == self.process is Some,
    {
        self.process.is_some()
    }

    /// Takes over a process that was just spawned. Its input is kept only
    /// if the stream prelude could be written to it. A process held before
    /// is handed back, so that only one is ever held.
    pub fn started(&mut self, process: C, stdin: W, header_written: bool) -> (previous: Option<C>)
        ensures
            previous == old(self).process,
            final(self).process == Some(process),
            final(self).stdin == if header_written {
                Some(stdin)
            } else {
                old(self).stdin
            },
            final(self).sequence_headers == old(self).sequence_headers,
    {
        let mut previous = Some(process);
        core::mem::swap(&mut self.process, &mut previous);
        if header_written {
            self.stdin = Some(stdin);
        }
        previous
    }

    /// Lets go of the encoder: its input is dropped, which the process sees
    /// as the end of the stream, the cache is emptied, and the process is
    /// handed out to be waited for.
    pub fn stop(&mut self) -> (process: Option<C>)
        ensures
            process == old(self).process,
            final(self).process is None,
            final(self).stdin is None,
            final(self).sequence_headers@.len() == 0,
    {
        self.stdin = None;
        self.sequence_headers.clear();
        let mut process = None;
        core::mem::swap(&mut self.process, &mut process);
        process
    }
}

/// The steps that take a stream down once its publisher finished.
pub fn teardown_steps(stream_key: String) -> (steps: Vec<TeardownStep>)
    ensures
        teardown_fits(stream_key@, steps@),
{
    let mut steps: Vec<TeardownStep> = Vec::new();
    steps.push(
        TeardownStep::Announce(
            Notification { event: AppEvents::StreamEnded, payload: Payload::Stream(stream_key) },
        ),
    );
    steps.push(TeardownStep::AwaitExit);
    steps.push(
        TeardownStep::Announce(
            Notification { event: AppEvents::StreamPreviewEnded, payload: Payload::Empty },
        ),
    );
    steps.push(TeardownStep::RemovePreviewDirectory);
    steps
}

/// Whether the encoder process is to be killed after the wait for it: only
/// if the wait itself failed.
pub fn kill_after_wait(wait_succeeded: bool) -> (kill: bool)
    ensures
        kill == !wait_succeeded,
{
    !wait_succeeded
}

} // verus!
