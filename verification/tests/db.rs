use rtmp_relay::db::{
    default_encoder_settings, public_relay_targets, RelayTarget, RelayTargetPublic,
};

fn target(id: i64, key: &str) -> RelayTarget {
    RelayTarget {
        id,
        tag: format!("tag{}", id),
        stream_key: key.to_string(),
        url: "rtmp://a.example/live".to_string(),
        enabled: id % 2 == 0,
        created_at: if id == 1 { None } else { Some("2024-01-01 00:00:00".to_string()) },
    }
}

#[test]
fn default_settings_pass_the_stream_through() {
    let settings = default_encoder_settings();
    assert_eq!(settings.video_bitrate, 6000);
    assert_eq!(settings.audio_bitrate, 160);
    assert_eq!(settings.video_codec, "libx264");
    assert_eq!(settings.audio_codec, "aac");
    assert_eq!(settings.preset, "veryfast");
    assert_eq!(settings.tune.as_deref(), Some("zerolatency"));
    assert_eq!(settings.bufsize, Some(8000));
    assert_eq!(settings.framerate, None);
    assert_eq!(settings.resolution, None);
    assert!(settings.use_passthrough);
}

#[test]
fn public_target_masks_only_the_stream_key() {
    let stored = target(2, "live_abcdef1234");
    let shown = RelayTargetPublic::from_relay_target(&stored);
    assert_eq!(shown.id, 2);
    assert_eq!(shown.tag, "tag2");
    assert_eq!(shown.stream_key, "***********1234");
    assert_eq!(shown.url, "rtmp://a.example/live");
    assert!(shown.enabled);
    assert_eq!(shown.created_at.as_deref(), Some("2024-01-01 00:00:00"));
    // The stored target is untouched.
    assert_eq!(stored.stream_key, "live_abcdef1234");
}

#[test]
fn public_target_keeps_a_missing_creation_time() {
    let shown = RelayTargetPublic::from_relay_target(&target(1, "k"));
    assert_eq!(shown.created_at, None);
    assert!(!shown.enabled);
    assert_eq!(shown.stream_key, "*");
}

#[test]
fn public_targets_come_in_the_order_given() {
    let targets = vec![target(3, "abcdefgh"), target(1, ""), target(2, "abcde")];
    let shown = public_relay_targets(&targets);
    assert_eq!(shown.len(), 3);
    assert_eq!(shown[0].id, 3);
    assert_eq!(shown[0].stream_key, "****efgh");
    assert_eq!(shown[1].id, 1);
    assert_eq!(shown[1].stream_key, "");
    assert_eq!(shown[2].id, 2);
    assert_eq!(shown[2].stream_key, "*bcde");
    assert!(public_relay_targets(&Vec::new()).is_empty());
}
