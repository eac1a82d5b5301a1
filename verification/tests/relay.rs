use rtmp_relay::db::RelayTarget;
use rtmp_relay::events::{AppEvents, Payload};
use rtmp_relay::rtmp::fanout::handle_chunk;
use rtmp_relay::rtmp::flv::{flv_header, flv_tag, FlvTagType};
use rtmp_relay::rtmp::relay::{
    monitor_verdict, relay_args, relay_log_name, relay_priming, RelayHandle, RelayTable,
    WaitOutcome, RELAY_QUEUE_CAPACITY, RETRY_BACKOFF_SECS,
};

type Table = RelayTable<&'static str, u8, u16>;

fn handle(id: i64, process: &'static str) -> RelayHandle<&'static str, u8> {
    RelayHandle { id, process, rx_task: 0 }
}

fn target(url: &str, key: &str) -> RelayTarget {
    RelayTarget {
        id: 1,
        tag: "t".to_string(),
        stream_key: key.to_string(),
        url: url.to_string(),
        enabled: true,
        created_at: None,
    }
}

fn failure(payload: &Payload) -> (i64, String) {
    match payload {
        Payload::RelayFailure(id, reason) => (*id, reason.clone()),
        other => panic!("unexpected payload {:?}", other),
    }
}

#[test]
fn relay_copies_the_stream_to_its_target() {
    assert_eq!(
        relay_args(&target("rtmp://a.example/live2", "abcd-1234")),
        vec![
            "-f",
            "flv",
            "-i",
            "pipe:0",
            "-c:v",
            "copy",
            "-c:a",
            "copy",
            "-f",
            "flv",
            "rtmp://a.example/live2/abcd-1234"
        ]
    );
    assert_eq!(relay_args(&target("", ""))[10], "/");
}

#[test]
fn relay_log_is_named_after_the_id() {
    assert_eq!(relay_log_name(0), "relay_0.log");
    assert_eq!(relay_log_name(7), "relay_7.log");
    assert_eq!(relay_log_name(1234567890), "relay_1234567890.log");
    assert_eq!(relay_log_name(-15), "relay_-15.log");
    assert_eq!(relay_log_name(i64::MAX), format!("relay_{}.log", i64::MAX));
    assert_eq!(relay_log_name(i64::MIN), format!("relay_{}.log", i64::MIN));
}

#[test]
fn priming_is_the_prelude_and_then_the_cached_headers() {
    assert_eq!(relay_priming(&Vec::new()), vec![flv_header()]);
    let headers = vec![vec![9u8, 1, 2], vec![8u8], vec![]];
    assert_eq!(
        relay_priming(&headers),
        vec![flv_header(), vec![9u8, 1, 2], vec![8u8], vec![]]
    );
}

#[test]
fn a_relay_that_joins_mid_stream_gets_the_headers_seen_so_far() {
    let video = flv_tag(FlvTagType::Video, 0, &[0x17, 0x00, 0x01, 0x64]);
    let audio = flv_tag(FlvTagType::Audio, 0, &[0xAF, 0x00, 0x12, 0x10]);
    let frame = flv_tag(FlvTagType::Video, 40, &[0x27, 0x01, 0x00, 0x00]);
    let mut cache = Vec::new();
    for chunk in [&video, &frame, &audio, &frame] {
        handle_chunk(&mut cache, chunk);
    }
    let writes = relay_priming(&cache);
    assert_eq!(writes, vec![flv_header(), video, audio]);
    let mut stdin = Vec::new();
    for write in &writes {
        stdin.extend_from_slice(write);
    }
    assert_eq!(&stdin[..13], flv_header().as_slice());
    assert_eq!(stdin.len(), 13 + 19 + 19);
}

#[test]
fn a_relay_that_exits_in_success_has_ended() {
    let verdict =
        monitor_verdict(4, &WaitOutcome::Exited { success: true, code: Some(0) }, false);
    assert_eq!(verdict.notice.event, AppEvents::RelayEnded);
    assert!(matches!(verdict.notice.payload, Payload::Relay(4)));
    assert!(!verdict.back_off);
}

#[test]
fn a_relay_that_crashes_has_failed_with_its_code() {
    let verdict =
        monitor_verdict(4, &WaitOutcome::Exited { success: false, code: Some(1) }, false);
    assert_eq!(verdict.notice.event, AppEvents::RelayFailed);
    assert_eq!(failure(&verdict.notice.payload), (4, "Exited with code Some(1)".to_string()));
    assert!(verdict.back_off);
    assert_eq!(RETRY_BACKOFF_SECS, 3);
    let verdict =
        monitor_verdict(-2, &WaitOutcome::Exited { success: false, code: Some(-9) }, true);
    assert_eq!(failure(&verdict.notice.payload), (-2, "Exited with code Some(-9)".to_string()));
    assert!(!verdict.back_off);
    let verdict =
        monitor_verdict(3, &WaitOutcome::Exited { success: false, code: Some(i32::MIN) }, true);
    assert_eq!(
        failure(&verdict.notice.payload),
        (3, format!("Exited with code {:?}", Some(i32::MIN)))
    );
}

#[test]
fn a_relay_that_was_killed_has_failed_without_a_code() {
    let verdict = monitor_verdict(5, &WaitOutcome::Exited { success: false, code: None }, false);
    assert_eq!(verdict.notice.event, AppEvents::RelayFailed);
    assert_eq!(failure(&verdict.notice.payload), (5, "Exited with code None".to_string()));
}

#[test]
fn a_relay_that_cannot_be_waited_for_has_failed_with_the_message() {
    let verdict =
        monitor_verdict(6, &WaitOutcome::Failed { message: "No child processes".to_string() }, false);
    assert_eq!(verdict.notice.event, AppEvents::RelayFailed);
    assert_eq!(failure(&verdict.notice.payload), (6, "Wait error: No child processes".to_string()));
    assert!(!verdict.back_off);
}

#[test]
fn a_started_relay_is_in_the_table_and_on_the_bus() {
    assert_eq!(RELAY_QUEUE_CAPACITY, 4096);
    let mut table = Table::new();
    assert!(!table.contains(1));
    let notice = table.start_relay(handle(1, "one"), 10).unwrap();
    assert_eq!(notice.event, AppEvents::RelayActive);
    assert!(matches!(notice.payload, Payload::Relay(1)));
    assert!(table.contains(1));
    assert_eq!(table.relays[&1].id, 1);
    assert_eq!(table.relays[&1].process, "one");
    assert_eq!(table.relay_channels[&1], 10);
}

#[test]
fn a_relay_is_not_started_twice() {
    let mut table = Table::new();
    table.start_relay(handle(1, "one"), 10).unwrap();
    let (rejected, tx) = table.start_relay(handle(1, "again"), 11).unwrap_err();
    assert_eq!(rejected.process, "again");
    assert_eq!(tx, 11);
    assert_eq!(table.relays.len(), 1);
    assert_eq!(table.relays[&1].process, "one");
    assert_eq!(table.relay_channels[&1], 10);
}

#[test]
fn a_stopped_relay_leaves_table_and_bus() {
    let mut table = Table::new();
    table.start_relay(handle(1, "one"), 10).unwrap();
    table.start_relay(handle(2, "two"), 20).unwrap();
    let stopped = table.stop_relay(1).unwrap();
    assert_eq!(stopped.handle.id, 1);
    assert_eq!(stopped.handle.process, "one");
    assert_eq!(stopped.notice.event, AppEvents::RelayEnded);
    assert!(matches!(stopped.notice.payload, Payload::Relay(1)));
    assert!(!table.contains(1));
    assert!(!table.relay_channels.contains_key(&1));
    // The other relay goes on.
    assert!(table.contains(2));
    assert_eq!(table.relay_channels[&2], 20);
}

#[test]
fn stopping_a_missing_relay_changes_nothing() {
    let mut table = Table::new();
    assert!(table.stop_relay(3).is_none());
    table.start_relay(handle(2, "two"), 20).unwrap();
    assert!(table.stop_relay(3).is_none());
    assert!(table.stop_relay(2).is_some());
    assert!(table.stop_relay(2).is_none());
    assert!(table.relays.is_empty());
    assert!(table.relay_channels.is_empty());
}

#[test]
fn a_relay_can_be_started_again_after_it_was_stopped() {
    let mut table = Table::new();
    table.start_relay(handle(1, "one"), 10).unwrap();
    table.stop_relay(1).unwrap();
    assert!(table.start_relay(handle(1, "reborn"), 12).is_ok());
    assert_eq!(table.relays[&1].process, "reborn");
    assert_eq!(table.relay_channels[&1], 12);
}

#[test]
fn stopping_many_relays_passes_over_strangers_and_repeats() {
    let mut table = Table::new();
    for (id, name) in [(1, "one"), (2, "two"), (3, "three"), (4, "four")] {
        table.start_relay(handle(id, name), (id * 10) as u16).unwrap();
    }
    let stopped = table.stop_relays(&vec![3, 9, 1, 3]);
    let ids: Vec<i64> = stopped.iter().map(|relay| relay.handle.id).collect();
    assert_eq!(ids, vec![3, 1]);
    assert_eq!(stopped[0].handle.process, "three");
    assert!(stopped.iter().all(|relay| relay.notice.event == AppEvents::RelayEnded));
    assert!(matches!(stopped[1].notice.payload, Payload::Relay(1)));
    let mut left: Vec<i64> = table.relays.keys().copied().collect();
    left.sort();
    assert_eq!(left, vec![2, 4]);
    let mut channels: Vec<i64> = table.relay_channels.keys().copied().collect();
    channels.sort();
    assert_eq!(channels, vec![2, 4]);
    assert!(table.stop_relays(&Vec::new()).is_empty());
    assert_eq!(table.relays.len(), 2);
}

#[test]
fn a_relay_that_cannot_be_spawned_has_failed() {
    let mut table = Table::new();
    table.start_relay(handle(2, "two"), 20).unwrap();
    let verdict = table.conclude_start(8, Err("No such file or directory".to_string()));
    let notice = verdict.notice.unwrap();
    assert_eq!(notice.event, AppEvents::RelayFailed);
    assert_eq!(failure(&notice.payload), (8, "No such file or directory".to_string()));
    assert!(verdict.rejected.is_none());
    assert!(!table.contains(8));
    assert_eq!(table.relays.len(), 1);
    assert_eq!(table.relay_channels.len(), 1);
}

#[test]
fn a_spawned_relay_is_entered_and_announced() {
    let mut table = Table::new();
    let verdict = table.conclude_start(5, Ok((handle(5, "five"), 50)));
    let notice = verdict.notice.unwrap();
    assert_eq!(notice.event, AppEvents::RelayActive);
    assert!(matches!(notice.payload, Payload::Relay(5)));
    assert!(verdict.rejected.is_none());
    assert_eq!(table.relays[&5].process, "five");
    assert_eq!(table.relay_channels[&5], 50);
}

#[test]
fn a_relay_spawned_for_a_taken_id_is_handed_back() {
    let mut table = Table::new();
    table.start_relay(handle(5, "five"), 50).unwrap();
    let verdict = table.conclude_start(5, Ok((handle(5, "again"), 51)));
    assert!(verdict.notice.is_none());
    let (rejected, tx) = verdict.rejected.unwrap();
    assert_eq!(rejected.process, "again");
    assert_eq!(tx, 51);
    assert_eq!(table.relays[&5].process, "five");
    assert_eq!(table.relay_channels[&5], 50);
}
