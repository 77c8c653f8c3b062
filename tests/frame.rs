use monitor_tab::{build_frame, parse_frame, DecodeError, FrameError, Record, Sphere, Stl};

fn header(timestamp: u128, path: &str, tag: u16) -> Vec<u8> {
    let mut v = Vec::new();
    v.extend_from_slice(&timestamp.to_le_bytes());
    v.extend_from_slice(&(path.len() as u16).to_le_bytes());
    v.extend_from_slice(path.as_bytes());
    v.extend_from_slice(&tag.to_le_bytes());
    v
}

#[test]
fn frame_layout_is_exact() {
    let s = Sphere { radius: 1.0f64.to_bits() };
    let f = build_frame(0x0102_0304_0506_0708_090a_0b0c_0d0e_0f10, "/a", &s).unwrap();
    let mut expected = header(0x0102_0304_0506_0708_090a_0b0c_0d0e_0f10, "/a", 2);
    expected.extend_from_slice(&1.0f64.to_le_bytes());
    assert_eq!(f, expected);
    assert_eq!(f.len(), 16 + 2 + 2 + 2 + 8);
    assert_eq!(&f[16..18], &[2, 0]);
}

#[test]
fn path_length_field_matches_path() {
    for n in [0usize, 1, 255, 256, 1000, 65535] {
        let path = "p".repeat(n);
        let f = build_frame(7, &path, &Stl { data: vec![] }).unwrap();
        assert_eq!(u16::from_le_bytes([f[16], f[17]]) as usize, n);
        assert_eq!(f.len(), 20 + n);
    }
}

#[test]
fn multibyte_path_counts_bytes() {
    let path = "/é/日本";
    let f = build_frame(1, path, &Sphere { radius: 0 }).unwrap();
    assert_eq!(u16::from_le_bytes([f[16], f[17]]) as usize, path.len());
    assert_eq!(&f[18..18 + path.len()], path.as_bytes());
}

#[test]
fn path_too_long_is_rejected() {
    let path = "x".repeat(65536);
    assert_eq!(build_frame(0, &path, &Sphere { radius: 0 }), Err(FrameError::PathTooLong));
}

#[test]
fn empty_payload_still_has_header() {
    let f = build_frame(5, "/mesh", &Stl { data: vec![] }).unwrap();
    assert_eq!(f, header(5, "/mesh", 5));
}

#[test]
fn parse_reads_back_what_was_built() {
    let f = build_frame(123456789, "/robot/arm", &Sphere { radius: 2.5f64.to_bits() }).unwrap();
    let frame = parse_frame(&f).unwrap();
    assert_eq!(frame.timestamp, 123456789);
    assert_eq!(frame.path, "/robot/arm");
    match frame.record {
        Record::Sphere(s) => assert_eq!(f64::from_bits(s.radius), 2.5),
        _ => panic!("expected a sphere"),
    }
}

#[test]
fn parse_stl_takes_rest_of_frame() {
    let f = build_frame(9, "/m", &Stl { data: vec![1, 2, 3] }).unwrap();
    match parse_frame(&f).unwrap().record {
        Record::Stl(s) => assert_eq!(s.data, vec![1, 2, 3]),
        _ => panic!("expected a mesh"),
    }
}

#[test]
fn parse_errors() {
    assert!(matches!(parse_frame(&[0u8; 17]), Err(DecodeError::Truncated)));
    let mut short = header(0, "/abc", 2);
    short.truncate(20);
    assert!(matches!(parse_frame(&short), Err(DecodeError::Truncated)));

    let mut bad_path = Vec::new();
    bad_path.extend_from_slice(&0u128.to_le_bytes());
    bad_path.extend_from_slice(&2u16.to_le_bytes());
    bad_path.extend_from_slice(&[0xff, 0xfe]);
    bad_path.extend_from_slice(&5u16.to_le_bytes());
    assert!(matches!(parse_frame(&bad_path), Err(DecodeError::EncodingError)));

    let unknown = header(0, "/a", 42);
    assert!(matches!(parse_frame(&unknown), Err(DecodeError::BadRecord)));
    let mut wrong_len = header(0, "/a", 2);
    wrong_len.extend_from_slice(&[0u8; 4]);
    assert!(matches!(parse_frame(&wrong_len), Err(DecodeError::BadRecord)));
}
