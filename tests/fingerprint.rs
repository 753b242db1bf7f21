use dfint_installer::checksum_for_files;

#[test]
fn fileset_fingerprint_known_value() {
    assert_eq!(checksum_for_files(vec![Some(b"123456789".to_vec())]), 0xCBF4_3926);
    assert_eq!(checksum_for_files(vec![Some(b"1234".to_vec()), Some(b"56789".to_vec())]), 0xCBF4_3926);
}

#[test]
fn fileset_fingerprint_deterministic() {
    let files = || vec![Some(b"alpha".to_vec()), None, Some(b"gamma".to_vec())];
    assert_eq!(checksum_for_files(files()), checksum_for_files(files()));
}

#[test]
fn fileset_fingerprint_order_sensitive() {
    let a = b"first file".to_vec();
    let b = b"other file".to_vec();
    assert_ne!(
        checksum_for_files(vec![Some(a.clone()), Some(b.clone())]),
        checksum_for_files(vec![Some(b), Some(a)])
    );
}

#[test]
fn fileset_fingerprint_missing_file_differs() {
    let missing = checksum_for_files(vec![Some(b"lib".to_vec()), None]);
    let present = checksum_for_files(vec![Some(b"lib".to_vec()), Some(b"config".to_vec())]);
    assert_ne!(missing, present);
    assert_eq!(checksum_for_files(vec![None]), crc32fast::hash(&[0u8]));
}

#[test]
fn fileset_fingerprint_empty_list() {
    assert_eq!(checksum_for_files(vec![]), 0);
}
