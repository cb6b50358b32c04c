use rdesktop::assets::{
    encode_ico, encode_png, ico_file_name, icon_sizes, png_file_name, validate_name,
    validate_source, MAX_SOURCE_EDGE,
};

#[test]
fn rejects_path_traversal_names() {
    assert!(validate_name("../app").is_err());
}

#[test]
fn icon_name_rules() {
    assert!(validate_name("app").is_ok());
    assert_eq!(validate_name("").unwrap_err(), "icon name must not be empty, '.' or '..'");
    assert_eq!(validate_name("..").unwrap_err(), "icon name must not be empty, '.' or '..'");
    assert_eq!(validate_name("a/b").unwrap_err(), "icon name must be a file name, got 'a/b'");
    assert_eq!(validate_name("a\\b").unwrap_err(), "icon name must be a file name, got 'a\\b'");
}

#[test]
fn source_size_rules() {
    assert!(validate_source(8, 4, "s.png").is_ok());
    assert_eq!(validate_source(0, 4, "s.png").unwrap_err(), "PNG 's.png' has no pixels");
    assert_eq!(
        validate_source(9000, 10, "s.png").unwrap_err(),
        "PNG 's.png' is 9000x10; maximum supported edge is 8192"
    );
    assert!(validate_source(MAX_SOURCE_EDGE, MAX_SOURCE_EDGE, "s.png").is_ok());
}

#[test]
fn icon_file_names() {
    assert_eq!(icon_sizes(), vec![16, 24, 32, 48, 64, 128, 256]);
    assert_eq!(png_file_name("app", 32), "app-32.png");
    assert_eq!(ico_file_name("app"), "app.ico");
}

#[test]
fn ico_layout() {
    let entries = vec![(16u32, vec![1u8, 2, 3]), (256u32, vec![9u8; 5])];
    let ico = encode_ico(&entries).unwrap();
    assert_eq!(&ico[0..6], &[0, 0, 1, 0, 2, 0]);
    assert_eq!(&ico[6..22], &[16, 16, 0, 0, 1, 0, 32, 0, 3, 0, 0, 0, 38, 0, 0, 0]);
    assert_eq!(&ico[22..38], &[0, 0, 0, 0, 1, 0, 32, 0, 5, 0, 0, 0, 41, 0, 0, 0]);
    assert_eq!(&ico[38..41], &[1, 2, 3]);
    assert_eq!(&ico[41..46], &[9, 9, 9, 9, 9]);
    assert_eq!(ico.len(), 46);
}

#[test]
fn ico_payload_offsets_point_at_payloads() {
    let entries = vec![(32u32, b"\x89PNG\r\n\x1a\nAAAA".to_vec()), (48u32, b"\x89PNG\r\n\x1a\nBB".to_vec())];
    let ico = encode_ico(&entries).unwrap();
    for (k, (_, payload)) in entries.iter().enumerate() {
        let at = 6 + 16 * k;
        let len = u32::from_le_bytes([ico[at + 8], ico[at + 9], ico[at + 10], ico[at + 11]]) as usize;
        let off = u32::from_le_bytes([ico[at + 12], ico[at + 13], ico[at + 14], ico[at + 15]]) as usize;
        assert_eq!(&ico[off..off + len], payload.as_slice());
    }
}

#[test]
fn ico_errors() {
    assert_eq!(encode_ico(&[]).unwrap_err(), "ICO must contain between 1 and 65535 images");
    assert_eq!(
        encode_ico(&[(0u32, vec![1u8])]).unwrap_err(),
        "unsupported ICO entry: 0px, 1 bytes"
    );
    assert_eq!(
        encode_ico(&[(16u32, vec![1u8]), (300u32, vec![1u8, 2])]).unwrap_err(),
        "unsupported ICO entry: 300px, 2 bytes"
    );
}

#[test]
fn png_encoding_of_a_square() {
    let rgba = vec![255u8; 2 * 2 * 4];
    let png = encode_png(&rgba, 2).unwrap();
    assert_eq!(&png[0..8], b"\x89PNG\r\n\x1a\n");
}

#[test]
fn plain_names_are_accepted() {
    for name in ["app", "my-icon", "icon_2", "caf\u{e9}"] {
        assert!(validate_name(name).is_ok(), "{name}");
    }
}
