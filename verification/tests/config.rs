use rtmp_relay::config::{
    can_mask, database_file_name, database_url, find_available_port, get_ip_addresses,
    get_or_init_ports, hls_output_dir_name, hls_playlist_name, log_output_dir_name, mask_key,
    select_addresses, Admission, AppState, InterfaceAddress, PortInfo, PortsDecision, Readiness,
    DEFAULT_FILE_PORT, DEFAULT_RTMP_PORT, MAX_IPS,
};
use std::cell::RefCell;

type State = AppState<u8, u8, u16, u8, u8>;

fn address(is_ipv4: bool, text: &str) -> InterfaceAddress {
    InterfaceAddress { is_ipv4, text: text.to_string() }
}

#[test]
fn short_keys_are_masked_entirely() {
    assert_eq!(mask_key(""), "");
    assert_eq!(mask_key("a"), "*");
    assert_eq!(mask_key("abc"), "***");
    assert_eq!(mask_key("abcd"), "****");
}

#[test]
fn long_keys_keep_their_last_four_bytes() {
    assert_eq!(mask_key("abcde"), "*bcde");
    assert_eq!(mask_key("abcdefgh"), "****efgh");
    assert_eq!(mask_key("live_1234567890_secret"), "******************cret");
}

#[test]
fn masking_counts_bytes_not_characters() {
    // Two characters of two bytes each, then four of one.
    assert!(can_mask("\u{e9}\u{e9}abcd"));
    assert_eq!(mask_key("\u{e9}\u{e9}abcd"), "****abcd");
    // The last four bytes are two characters.
    assert!(can_mask("ab\u{e9}\u{e9}"));
    assert_eq!(mask_key("ab\u{e9}\u{e9}"), "**\u{e9}\u{e9}");
    // Four bytes in two characters are masked by four asterisks.
    assert_eq!(mask_key("\u{e9}\u{e9}"), "****");
}

#[test]
fn a_key_cut_inside_a_character_cannot_be_masked() {
    assert!(!can_mask("\u{e9}xyz"));
    assert!(!can_mask("a\u{20ac}xy"));
    assert!(can_mask("abc\u{20ac}x"));
    assert!(can_mask("abcdefgh"));
    assert!(can_mask(""));
    assert!(can_mask("\u{20ac}"));
}

#[test]
fn nothing_is_ready_at_first() {
    let readiness = Readiness::new();
    assert!(!readiness.rtmp_ready);
    assert!(!readiness.file_ready);
    assert!(!readiness.rtmp_active);
    assert!(!readiness.is_ready());
}

#[test]
fn ready_takes_both_servers() {
    let mut readiness = Readiness::new();
    readiness.rtmp_ready = true;
    assert!(!readiness.is_ready());
    readiness.file_ready = true;
    assert!(readiness.is_ready());
    readiness.rtmp_ready = false;
    assert!(!readiness.is_ready());
}

#[test]
fn only_the_first_of_many_connections_is_admitted() {
    let mut readiness = Readiness::new();
    assert_eq!(readiness.try_enter(), Admission::Accept);
    for _ in 0..5 {
        assert_eq!(readiness.try_enter(), Admission::Reject);
        assert!(readiness.rtmp_active);
    }
}

#[test]
fn a_second_publisher_is_rejected_until_the_first_is_gone() {
    let mut readiness = Readiness::new();
    readiness.rtmp_ready = true;
    assert_eq!(readiness.try_enter(), Admission::Accept);
    assert_eq!(readiness.try_enter(), Admission::Reject);
    readiness.release();
    assert!(!readiness.rtmp_active);
    assert!(readiness.rtmp_ready);
    assert_eq!(readiness.try_enter(), Admission::Accept);
}

#[test]
fn port_scan_returns_the_first_free_port() {
    let tried = RefCell::new(Vec::new());
    let probe = |port: u16| {
        tried.borrow_mut().push(port);
        port >= 1583
    };
    assert_eq!(find_available_port(1580, &probe), Some(1583));
    assert_eq!(*tried.borrow(), vec![1580, 1581, 1582, 1583]);
}

#[test]
fn port_scan_takes_the_start_port_if_free() {
    assert_eq!(find_available_port(8787, &|_| true), Some(8787));
    assert_eq!(find_available_port(0, &|_| true), Some(0));
    assert_eq!(find_available_port(65535, &|_| true), Some(65535));
}

#[test]
fn port_scan_gives_up_after_the_last_port() {
    let count = RefCell::new(0u32);
    let probe = |_: u16| {
        *count.borrow_mut() += 1;
        false
    };
    assert_eq!(find_available_port(65000, &probe), None);
    assert_eq!(*count.borrow(), 536);
    assert_eq!(find_available_port(65535, &|_| false), None);
    assert_eq!(find_available_port(65534, &|p| p == 65535), Some(65535));
}

#[test]
fn stored_ports_are_used_again_without_probing() {
    let stored = PortInfo { rtmp_port: 1935, file_port: 8080 };
    let probe = |_: u16| -> bool { panic!("no port is to be probed") };
    assert_eq!(get_or_init_ports(Some(stored), &probe), PortsDecision::Stored(stored));
}

#[test]
fn fresh_ports_start_from_the_defaults() {
    assert_eq!(DEFAULT_RTMP_PORT, 1580);
    assert_eq!(DEFAULT_FILE_PORT, 8787);
    assert_eq!(
        get_or_init_ports(None, &|_| true),
        PortsDecision::Found(PortInfo { rtmp_port: 1580, file_port: 8787 })
    );
    assert_eq!(
        get_or_init_ports(None, &|p| p != 1580 && p != 8787 && p != 8788),
        PortsDecision::Found(PortInfo { rtmp_port: 1581, file_port: 8789 })
    );
}

#[test]
fn both_scans_may_end_on_the_same_port() {
    assert_eq!(
        get_or_init_ports(None, &|p| p >= 9000),
        PortsDecision::Found(PortInfo { rtmp_port: 9000, file_port: 9000 })
    );
}

#[test]
fn ports_are_exhausted_if_either_scan_fails() {
    assert_eq!(get_or_init_ports(None, &|_| false), PortsDecision::Exhausted);
    assert_eq!(get_or_init_ports(None, &|p| p < 8787), PortsDecision::Exhausted);
}

#[test]
fn the_first_three_ipv4_addresses_are_selected() {
    let found = vec![
        address(false, "::1"),
        address(true, "127.0.0.1"),
        address(true, "192.168.1.7"),
        address(false, "fe80::1"),
        address(true, "10.0.0.2"),
        address(true, "172.16.0.9"),
    ];
    assert_eq!(MAX_IPS, 3);
    assert_eq!(select_addresses(&found), vec!["127.0.0.1", "192.168.1.7", "10.0.0.2"]);
}

#[test]
fn fewer_addresses_are_all_selected() {
    assert!(select_addresses(&Vec::new()).is_empty());
    assert!(select_addresses(&vec![address(false, "::1")]).is_empty());
    assert_eq!(
        select_addresses(&vec![address(true, "10.1.1.1"), address(false, "::1")]),
        vec!["10.1.1.1"]
    );
}

#[test]
fn this_machine_shows_at_most_three_ipv4_addresses() {
    if let Some(ips) = get_ip_addresses() {
        assert!(ips.len() <= 3);
        for ip in ips {
            let parts: Vec<&str> = ip.split('.').collect();
            assert_eq!(parts.len(), 4, "{} is no IPv4 address", ip);
            assert!(parts.iter().all(|part| part.parse::<u8>().is_ok()));
        }
    }
}

#[test]
fn new_state_is_idle() {
    let state = State::new(1580, 8787);
    assert_eq!(state.ports, PortInfo { rtmp_port: 1580, file_port: 8787 });
    assert!(!state.is_ready());
    assert!(!state.readiness.rtmp_active);
    assert!(!state.source_active);
    assert!(state.relays.relays.is_empty());
    assert!(state.relays.relay_channels.is_empty());
    assert!(state.encoder.process.is_none());
    assert!(state.encoder.stdin.is_none());
    assert!(state.encoder.sequence_headers.is_empty());
    assert!(state.encoder_settings.use_passthrough);
    assert_eq!(state.encoder_settings.video_codec, "libx264");
}

#[test]
fn state_is_ready_once_both_servers_are() {
    let mut state = State::new(0, 0);
    state.readiness.rtmp_ready = true;
    assert!(!state.is_ready());
    state.readiness.file_ready = true;
    assert!(state.is_ready());
}

#[test]
fn relay_channels_are_registered_and_unregistered() {
    let mut state = State::new(0, 0);
    state.register_relay_channel(7, 70);
    state.register_relay_channel(8, 80);
    assert_eq!(state.relays.relay_channels.len(), 2);
    assert_eq!(state.relays.relay_channels[&7], 70);
    state.register_relay_channel(7, 71);
    assert_eq!(state.relays.relay_channels.len(), 2);
    assert_eq!(state.relays.relay_channels[&7], 71);
    state.unregister_relay_channel(7);
    assert!(!state.relays.relay_channels.contains_key(&7));
    assert_eq!(state.relays.relay_channels[&8], 80);
    state.unregister_relay_channel(7);
    assert_eq!(state.relays.relay_channels.len(), 1);
    assert!(state.relays.relays.is_empty());
}

#[test]
fn configure_takes_stored_settings_or_the_default() {
    let mut state = State::new(0, 0);
    let mut settings = rtmp_relay::db::default_encoder_settings();
    settings.use_passthrough = false;
    settings.video_bitrate = 2500;
    state.configure(PortInfo { rtmp_port: 1600, file_port: 8800 }, Some(settings));
    assert_eq!(state.ports, PortInfo { rtmp_port: 1600, file_port: 8800 });
    assert!(!state.encoder_settings.use_passthrough);
    assert_eq!(state.encoder_settings.video_bitrate, 2500);
    state.configure(PortInfo { rtmp_port: 1601, file_port: 8801 }, None);
    assert_eq!(state.ports.rtmp_port, 1601);
    assert!(state.encoder_settings.use_passthrough);
    assert_eq!(state.encoder_settings.video_bitrate, 6000);
}

#[test]
fn names_of_directories_and_files() {
    assert_eq!(hls_output_dir_name(), "./hls_output");
    assert_eq!(log_output_dir_name(), "./logs");
    assert_eq!(hls_playlist_name(), "playlist.m3u8");
    assert_eq!(database_file_name(), "app.sqlite");
    assert_eq!(database_url("/data/app.sqlite"), "sqlite:///data/app.sqlite?mode=rwc");
}
