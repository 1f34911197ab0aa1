use bytes::Bytes;
use rewinder::buffer::{build_replay_snapshot, AudioBuffer, EncodedPacket, VideoBuffer};
use rewinder::encoding::StreamKind;

fn make_packet(stream: StreamKind, pts: i64, key: bool) -> EncodedPacket {
    EncodedPacket {
        stream,
        data: Bytes::from_static(&[1]),
        pts,
        dts: pts,
        duration: 1_000_000,
        is_keyframe: key,
        seq: pts as u64,
    }
}

#[test]
fn trims_before_first_keyframe_and_rebases() {
    let video = vec![
        make_packet(StreamKind::Video, 1_000_000, false),
        make_packet(StreamKind::Video, 2_000_000, true),
        make_packet(StreamKind::Video, 3_000_000, false),
    ];
    let audio = vec![
        make_packet(StreamKind::Audio, 1_500_000, true),
        make_packet(StreamKind::Audio, 2_500_000, true),
    ];

    let snapshot = build_replay_snapshot(video, audio, 3_000_000).expect("snapshot");
    assert_eq!(snapshot.video_packets[0].pts, 0);
    assert!(snapshot.audio_packets[0].pts >= 0);
}

#[test]
fn snapshot_rebases_audio_and_measures_duration() {
    let video = vec![
        make_packet(StreamKind::Video, 1_000_000, false),
        make_packet(StreamKind::Video, 2_000_000, true),
        make_packet(StreamKind::Video, 3_000_000, false),
    ];
    let audio = vec![
        make_packet(StreamKind::Audio, 3_500_000, true),
        make_packet(StreamKind::Audio, 1_500_000, true),
        make_packet(StreamKind::Audio, 2_500_000, true),
    ];
    let snapshot = build_replay_snapshot(video, audio, 3_000_000).expect("snapshot");
    let video_pts: Vec<i64> = snapshot.video_packets.iter().map(|p| p.pts).collect();
    let audio_pts: Vec<i64> = snapshot.audio_packets.iter().map(|p| p.pts).collect();
    assert_eq!(video_pts, vec![0, 1_000_000]);
    assert_eq!(audio_pts, vec![500_000, 1_500_000]);
    assert_eq!(snapshot.duration_us, 2_500_000);
    assert_eq!(snapshot.video_packets[0].data, Bytes::from_static(&[1]));
}

#[test]
fn snapshot_errors_are_reported() {
    let err = build_replay_snapshot(Vec::new(), Vec::new(), 1_000_000).err();
    assert_eq!(err.as_deref(), Some("Buffer has no video packets yet"));
    let video = vec![make_packet(StreamKind::Video, 1_000_000, false)];
    let err = build_replay_snapshot(video, Vec::new(), 1_000_000).err();
    assert_eq!(
        err.as_deref(),
        Some("No keyframe found in replay window. Increase buffer duration or reduce GOP")
    );
}

#[test]
fn evicts_by_window() {
    let mut buffer = VideoBuffer::new(2_000_000);
    for i in 0..5 {
        buffer.push(EncodedPacket {
            stream: StreamKind::Video,
            data: Bytes::from_static(&[1]),
            pts: i * 1_000_000,
            dts: i * 1_000_000,
            duration: 1_000_000,
            is_keyframe: i % 2 == 0,
            seq: i as u64,
        });
    }

    let packets = buffer.snapshot_last_us(10_000_000);
    assert!(packets.len() <= 3);
    assert_eq!(packets.len(), 3);
    assert_eq!(packets[0].pts, 2_000_000);
    assert_eq!(buffer.fill_us(), 3_000_000);
}

#[test]
fn audio_buffer_keeps_recent_window() {
    let mut buffer = AudioBuffer::new(1_000_000);
    assert_eq!(buffer.fill_us(), 0);
    for i in 0..4 {
        buffer.push(make_packet(StreamKind::Audio, i * 500_000, true));
    }
    let packets = buffer.snapshot_last_us(600_000);
    let pts: Vec<i64> = packets.iter().map(|p| p.pts).collect();
    assert_eq!(pts, vec![1_000_000, 1_500_000]);
}
