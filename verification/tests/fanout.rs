use rtmp_relay::rtmp::fanout::{handle_chunk, FanoutStep, BUS_CAPACITY, CHUNK_SIZE};
use rtmp_relay::rtmp::flv::{flv_tag, FlvTagType};

#[test]
fn an_empty_read_ends_the_reader() {
    let mut cache = vec![vec![1u8]];
    assert_eq!(handle_chunk(&mut cache, &[]), FanoutStep::Stop);
    assert_eq!(cache, vec![vec![1u8]]);
}

#[test]
fn ordinary_chunks_are_forwarded_and_not_cached() {
    let mut cache = Vec::new();
    assert_eq!(handle_chunk(&mut cache, &[0u8; 4096]), FanoutStep::Forward { cached: false });
    assert_eq!(handle_chunk(&mut cache, &[0x09]), FanoutStep::Forward { cached: false });
    let frame = flv_tag(FlvTagType::Video, 40, &[0x27, 0x01, 0x00]);
    assert_eq!(handle_chunk(&mut cache, &frame), FanoutStep::Forward { cached: false });
    assert!(cache.is_empty());
}

#[test]
fn sequence_headers_are_cached_once_in_order() {
    let video = flv_tag(FlvTagType::Video, 0, &[0x17, 0x00, 0x01]);
    let audio = flv_tag(FlvTagType::Audio, 0, &[0xAF, 0x00, 0x12]);
    let mut cache = Vec::new();
    assert_eq!(handle_chunk(&mut cache, &audio), FanoutStep::Forward { cached: true });
    assert_eq!(cache, vec![audio.clone()]);
    assert_eq!(handle_chunk(&mut cache, &video), FanoutStep::Forward { cached: true });
    assert_eq!(cache, vec![audio.clone(), video.clone()]);
    assert_eq!(handle_chunk(&mut cache, &video), FanoutStep::Forward { cached: true });
    assert_eq!(cache, vec![audio, video.clone(), video]);
}

#[test]
fn sizes_of_chunk_and_bus() {
    assert_eq!(CHUNK_SIZE, 4096);
    assert_eq!(BUS_CAPACITY, 512);
}
