use camstream::source::classify_source;
use camstream::source::SourceKind;

#[test]
fn plain_digit_is_a_device_index() {
    let k = classify_source(&b"0".to_vec());
    assert!(matches!(k, SourceKind::DeviceIndex { index: 0 }));
}

#[test]
fn surrounding_whitespace_is_ignored() {
    // A configuration file usually ends in a newline.
    let k = classify_source(&b" 12 \n".to_vec());
    assert!(matches!(k, SourceKind::DeviceIndex { index: 12 }));
    let k = classify_source(&b"\t3\r\n".to_vec());
    assert!(matches!(k, SourceKind::DeviceIndex { index: 3 }));
}

#[test]
fn path_like_ids_are_file_sources() {
    assert!(matches!(classify_source(&b"video.mp4".to_vec()), SourceKind::FilePath));
    assert!(matches!(classify_source(&b"/dev/video0".to_vec()), SourceKind::FilePath));
    assert!(matches!(classify_source(&b"12a".to_vec()), SourceKind::FilePath));
    assert!(matches!(classify_source(&b"1 2".to_vec()), SourceKind::FilePath));
}

#[test]
fn empty_or_blank_id_is_a_file_source() {
    assert!(matches!(classify_source(&b"".to_vec()), SourceKind::FilePath));
    assert!(matches!(classify_source(&b"  \n".to_vec()), SourceKind::FilePath));
}

#[test]
fn largest_index_is_accepted_and_overflow_is_not() {
    let k = classify_source(&b"2147483647".to_vec());
    assert!(matches!(k, SourceKind::DeviceIndex { index: 2147483647 }));
    assert!(matches!(classify_source(&b"2147483648".to_vec()), SourceKind::FilePath));
    assert!(matches!(
        classify_source(&b"99999999999999999999".to_vec()),
        SourceKind::FilePath
    ));
}

#[test]
fn leading_zeroes_still_name_an_index() {
    let k = classify_source(&b"007".to_vec());
    assert!(matches!(k, SourceKind::DeviceIndex { index: 7 }));
}
