use std::io::Write;
use toolkit_utils::codec::{
    base64_round_trip, base64_to_bytes, bytes_to_base64, decompress_wasm_gz, generate_checksum,
    validate_gzipped_wasm,
};

fn gzip(bytes: &[u8]) -> Vec<u8> {
    let mut e = flate2::write::GzEncoder::new(Vec::new(), flate2::Compression::default());
    e.write_all(bytes).unwrap();
    e.finish().unwrap()
}

#[test]
fn base64_encodes_standard_alphabet() {
    assert_eq!(bytes_to_base64(b"hello".to_vec()), "aGVsbG8=");
    assert_eq!(bytes_to_base64(vec![]), "");
    assert_eq!(bytes_to_base64(vec![0xfb, 0xff]), "+/8=");
}

#[test]
fn base64_decodes_or_rejects() {
    assert_eq!(base64_to_bytes(&"aGVsbG8=".to_string()), Some(b"hello".to_vec()));
    assert_eq!(base64_to_bytes(&"not base64!".to_string()), None);
    assert_eq!(base64_to_bytes(&String::new()), Some(vec![]));
}

#[test]
fn base64_round_trips() {
    for bytes in [vec![], vec![0u8], vec![1, 2, 3, 4, 5], (0..=255u8).collect::<Vec<u8>>()] {
        assert_eq!(base64_round_trip(bytes.clone()), Some(bytes.clone()));
        assert_eq!(base64_to_bytes(&bytes_to_base64(bytes.clone())), Some(bytes));
    }
}

#[test]
fn checksum_is_sha256() {
    let d = generate_checksum(&b"abc".to_vec());
    assert_eq!(d.len(), 32);
    assert_eq!(d[0], 0xba);
    assert_eq!(d[31], 0xad);
}

#[test]
fn gzip_inflates_or_fails() {
    assert_eq!(decompress_wasm_gz(&gzip(b"payload")).unwrap(), b"payload".to_vec());
    assert!(decompress_wasm_gz(b"not gzip").is_err());
}

#[test]
fn gzipped_module_is_validated() {
    let module = b"\0asm\x01\0\0\0".to_vec();
    assert!(validate_gzipped_wasm(&gzip(&module)).is_ok());
    assert!(validate_gzipped_wasm(&gzip(b"\0asm\x09\0\0\0")).is_err());
    assert!(validate_gzipped_wasm(b"junk").is_err());
}
