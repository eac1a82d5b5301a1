use rtmp_relay::db::{default_encoder_settings, EncoderSettings};
use rtmp_relay::events::{AppEvents, Payload};
use rtmp_relay::rtmp::session::{publish_steps, PublishStep};
use rtmp_relay::rtmp::encoder::{
    encoder_args, encoder_log_name, kill_after_wait, poll_playlist, teardown_steps, EncoderState,
    PollStep, TeardownStep, DEFAULT_BUFSIZE_KBPS, PLAYLIST_POLL_ATTEMPTS,
    PLAYLIST_POLL_INTERVAL_MS,
};

fn transcode() -> EncoderSettings {
    let mut settings = default_encoder_settings();
    settings.use_passthrough = false;
    settings
}

fn follows(args: &[String], flag: &str, value: &str) -> bool {
    args.windows(2).any(|pair| pair[0] == flag && pair[1] == value)
}

const TEE: &str = "[f=hls:hls_time=6:hls_list_size=8:hls_flags=delete_segments]/data/hls_output/playlist.m3u8|[f=flv]pipe:1";

#[test]
fn passthrough_copies_both_streams() {
    let args = encoder_args(&default_encoder_settings(), "/data/hls_output/playlist.m3u8");
    assert_eq!(
        args,
        vec!["-f", "flv", "-i", "pipe:0", "-c:v", "copy", "-c:a", "copy", "-f", "tee", TEE]
    );
    assert!(!args.iter().any(|arg| arg == "-preset"));
    assert!(!args.iter().any(|arg| arg == "-tune"));
}

#[test]
fn transcoding_uses_codec_preset_and_tune() {
    let mut settings = transcode();
    settings.preset = "veryfast".to_string();
    settings.tune = Some("zerolatency".to_string());
    let args = encoder_args(&settings, "/data/hls_output/playlist.m3u8");
    assert!(follows(&args, "-c:v", "libx264"));
    assert!(follows(&args, "-preset", "veryfast"));
    assert!(follows(&args, "-tune", "zerolatency"));
    assert!(!args.iter().any(|arg| arg == "copy"));
}

#[test]
fn transcoding_arguments_are_exact() {
    let args = encoder_args(&transcode(), "/data/hls_output/playlist.m3u8");
    assert_eq!(
        args,
        vec![
            "-f",
            "flv",
            "-i",
            "pipe:0",
            "-map",
            "0:v",
            "-map",
            "0:a",
            "-c:v",
            "libx264",
            "-b:v",
            "6000k",
            "-bufsize",
            "8000k",
            "-preset",
            "veryfast",
            "-c:a",
            "aac",
            "-b:a",
            "160k",
            "-tune",
            "zerolatency",
            "-f",
            "tee",
            TEE
        ]
    );
}

#[test]
fn missing_tune_and_bufsize_fall_back() {
    let mut settings = transcode();
    settings.tune = None;
    settings.bufsize = None;
    settings.video_bitrate = 0;
    settings.audio_bitrate = u32::MAX;
    settings.video_codec = "h264_nvenc".to_string();
    let args = encoder_args(&settings, "p.m3u8");
    assert_eq!(DEFAULT_BUFSIZE_KBPS, 8000);
    assert!(follows(&args, "-bufsize", "8000k"));
    assert!(follows(&args, "-b:v", "0k"));
    assert!(follows(&args, "-b:a", "4294967295k"));
    assert!(follows(&args, "-c:v", "h264_nvenc"));
    assert!(!args.iter().any(|arg| arg == "-tune"));
    assert_eq!(args.len(), 23);
    assert_eq!(
        args[22],
        "[f=hls:hls_time=6:hls_list_size=8:hls_flags=delete_segments]p.m3u8|[f=flv]pipe:1"
    );
}

#[test]
fn bitrates_are_written_in_decimal() {
    for rate in [1u32, 9, 10, 99, 100, 2500, 10_000, 123_456_789] {
        let mut settings = transcode();
        settings.video_bitrate = rate;
        settings.bufsize = Some(rate);
        let args = encoder_args(&settings, "p");
        assert!(follows(&args, "-b:v", &format!("{}k", rate)));
        assert!(follows(&args, "-bufsize", &format!("{}k", rate)));
    }
}

#[test]
fn encoder_log_has_its_name() {
    assert_eq!(encoder_log_name(), "ffmpeg_encoder.log");
}

#[test]
fn playlist_that_appears_makes_the_preview_active() {
    assert_eq!(poll_playlist(0, true), PollStep::Announce(AppEvents::StreamPreviewActive));
    assert_eq!(poll_playlist(17, true), PollStep::Announce(AppEvents::StreamPreviewActive));
    assert_eq!(poll_playlist(50, true), PollStep::Announce(AppEvents::StreamPreviewActive));
}

#[test]
fn playlist_is_waited_for_fifty_times() {
    assert_eq!(PLAYLIST_POLL_ATTEMPTS, 50);
    assert_eq!(PLAYLIST_POLL_INTERVAL_MS, 500);
    let mut waits = 0;
    loop {
        match poll_playlist(waits, false) {
            PollStep::Wait => waits += 1,
            PollStep::Announce(event) => {
                assert_eq!(event, AppEvents::StreamPreviewFailed);
                break;
            }
        }
    }
    assert_eq!(waits, 50);
    assert_eq!(poll_playlist(49, false), PollStep::Wait);
    assert_eq!(poll_playlist(u32::MAX, false), PollStep::Announce(AppEvents::StreamPreviewFailed));
}

#[test]
fn teardown_announces_the_end_before_the_preview_ends() {
    let steps = teardown_steps("live".to_string());
    assert_eq!(steps.len(), 4);
    match &steps[0] {
        TeardownStep::Announce(notice) => {
            assert_eq!(notice.event, AppEvents::StreamEnded);
            assert!(matches!(&notice.payload, Payload::Stream(key) if key == "live"));
        }
        other => panic!("unexpected first step {:?}", other),
    }
    assert!(matches!(steps[1], TeardownStep::AwaitExit));
    match &steps[2] {
        TeardownStep::Announce(notice) => {
            assert_eq!(notice.event, AppEvents::StreamPreviewEnded);
            assert!(matches!(notice.payload, Payload::Empty));
        }
        other => panic!("unexpected third step {:?}", other),
    }
    assert!(matches!(steps[3], TeardownStep::RemovePreviewDirectory));
}

#[test]
fn publish_start_and_stop_announce_in_order() {
    // What is announced from the start of the encoder to its end.
    let mut announced = Vec::new();
    for step in publish_steps(true) {
        match step {
            PublishStep::Announce(notice) => announced.push(notice.event.as_str()),
            PublishStep::WatchPlaylist => {
                if let PollStep::Announce(event) = poll_playlist(3, true) {
                    announced.push(event.as_str());
                }
            }
        }
    }
    for step in teardown_steps("live".to_string()) {
        if let TeardownStep::Announce(notice) = step {
            announced.push(notice.event.as_str());
        }
    }
    assert_eq!(
        announced,
        vec!["stream-active", "stream-preview-active", "stream-ended", "stream-preview-ended"]
    );
}

#[test]
fn encoder_is_killed_only_if_the_wait_failed() {
    assert!(!kill_after_wait(true));
    assert!(kill_after_wait(false));
}

#[test]
fn encoder_state_holds_one_process() {
    let mut state: EncoderState<&str, u8> = EncoderState::new();
    assert!(!state.is_running());
    assert_eq!(state.started("first", 1, true), None);
    assert!(state.is_running());
    assert_eq!(state.process, Some("first"));
    assert_eq!(state.stdin, Some(1));
    // A second start hands the first process back.
    assert_eq!(state.started("second", 2, true), Some("first"));
    assert_eq!(state.process, Some("second"));
    assert_eq!(state.stdin, Some(2));
}

#[test]
fn encoder_input_is_kept_only_if_the_prelude_was_written() {
    let mut state: EncoderState<u8, &str> = EncoderState::new();
    state.started(1, "pipe", false);
    assert!(state.is_running());
    assert_eq!(state.stdin, None);
    state.started(2, "other", true);
    state.started(3, "broken", false);
    assert_eq!(state.stdin, Some("other"));
}

#[test]
fn stopping_the_encoder_clears_input_and_cache() {
    let mut state: EncoderState<u8, u8> = EncoderState::new();
    state.started(9, 1, true);
    state.sequence_headers.push(vec![1, 2, 3]);
    assert_eq!(state.stop(), Some(9));
    assert!(!state.is_running());
    assert_eq!(state.stdin, None);
    assert!(state.sequence_headers.is_empty());
    assert_eq!(state.stop(), None);
}
