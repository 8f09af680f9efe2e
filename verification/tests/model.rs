use nexus_core::error::NexusError;
use nexus_core::identity::DeviceId;
use nexus_core::model::{direct_stream_id, now_ms, EventKind, FILE_CHUNK_SIZE, PROTOCOL_VERSION};
use nexus_core::protocol::{frame, frame_length, MAX_FRAME};
use nexus_core::text::{is_blank, push_decimal_i64, trim};

#[test]
fn direct_stream_ids_are_sorted_and_symmetric() {
    let a = DeviceId("aaa".into());
    let b = DeviceId("abb".into());
    assert_eq!(direct_stream_id(&a, &b), "dm:aaa:abb");
    assert_eq!(direct_stream_id(&b, &a), "dm:aaa:abb");
    let short = DeviceId("ab".into());
    assert_eq!(direct_stream_id(&b, &short), "dm:ab:abb");
    assert_eq!(direct_stream_id(&a, &a), "dm:aaa:aaa");
    let upper = DeviceId("Z".into());
    assert_eq!(direct_stream_id(&a, &upper), "dm:Z:aaa");
}

#[test]
fn event_kind_codes() {
    for kind in [EventKind::Text, EventKind::FileManifest, EventKind::System] {
        assert_eq!(EventKind::from_code(kind.code()), Ok(kind));
    }
    assert_eq!(EventKind::Text.code(), 1);
    assert_eq!(EventKind::FileManifest.code(), 2);
    assert_eq!(EventKind::System.code(), 3);
    assert_eq!(EventKind::System.index(), 2);
    assert_eq!(EventKind::from_code(7), Err(NexusError::UnknownEventKind(7)));
    assert_eq!(NexusError::UnknownEventKind(-7).message(), "unknown event kind -7");
}

#[test]
fn constants() {
    assert_eq!(PROTOCOL_VERSION, 1);
    assert_eq!(FILE_CHUNK_SIZE, 262_144);
    assert_eq!(MAX_FRAME, 8_388_608);
}

#[test]
fn clock_is_after_2020() {
    assert!(now_ms() > 1_577_836_800_000);
}

#[test]
fn frames_carry_a_big_endian_length() {
    let framed = frame(b"abc").unwrap();
    assert_eq!(framed, vec![0, 0, 0, 3, b'a', b'b', b'c']);
    assert_eq!(frame_length([0, 0, 0, 3]), Some(3));
    assert_eq!(frame_length([0, 0x80, 0, 0]), Some(MAX_FRAME));
    assert_eq!(frame_length([0, 0x80, 0, 1]), None);
    assert_eq!(frame_length([1, 2, 3, 4]), None);
    let big = vec![7_u8; 300];
    let framed = frame(&big).unwrap();
    assert_eq!(&framed[..4], &[0, 0, 1, 44]);
    assert_eq!(frame_length([framed[0], framed[1], framed[2], framed[3]]), Some(300));
    assert!(frame(&vec![0_u8; MAX_FRAME + 1]).is_none());
    assert_eq!(frame(&vec![0_u8; MAX_FRAME]).unwrap().len(), MAX_FRAME + 4);
}

#[test]
fn trimming_and_decimals() {
    assert_eq!(trim("  a b \u{3000}\n"), "a b");
    assert_eq!(trim(""), "");
    assert!(is_blank(" \u{2028}\t"));
    assert!(!is_blank(" x "));
    let mut s = String::from("n=");
    push_decimal_i64(&mut s, -120);
    assert_eq!(s, "n=-120");
    let mut z = String::new();
    push_decimal_i64(&mut z, 0);
    assert_eq!(z, "0");
}
