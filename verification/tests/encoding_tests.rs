use p2p_mpc::cli::jaeger_endpoint;
use p2p_mpc::mpc::execution_id::{execution_id_from_parts, shared_execution_id_bytes, signing_party_count};
use p2p_mpc::text::{decimal_string, hex_string, usize_decimal_string, concat3};

#[test]
fn execution_id_layout() {
    let id = shared_execution_id_bytes("aux_gen", 3, 0x0102_0304_0506_0708);
    let mut expected = b"aux_gen".to_vec();
    expected.extend_from_slice(&[0x00, 0x03]);
    expected.extend_from_slice(&[1, 2, 3, 4, 5, 6, 7, 8]);
    assert_eq!(id, expected);
}

#[test]
fn execution_id_matches_big_endian_std_encoding() {
    let ts: u64 = 1_700_000_123;
    let id = shared_execution_id_bytes("keygen", 513, ts);
    let mut expected = b"keygen".to_vec();
    expected.extend_from_slice(&513u16.to_be_bytes());
    expected.extend_from_slice(&ts.to_be_bytes());
    assert_eq!(id, expected);
}

#[test]
fn execution_id_of_non_ascii_protocol_uses_utf8() {
    let id = shared_execution_id_bytes("é", 0, 0);
    assert_eq!(&id[..2], &[0xc3, 0xa9]);
    assert_eq!(id.len(), 12);
}

#[test]
fn execution_ids_differ_with_timestamp() {
    let a = shared_execution_id_bytes("signing", 2, 10);
    let b = shared_execution_id_bytes("signing", 2, 11);
    let c = shared_execution_id_bytes("signing", 3, 10);
    assert_ne!(a, b);
    assert_ne!(a, c);
    assert_eq!(a, shared_execution_id_bytes("signing", 2, 10));
}

#[test]
fn signing_party_count_truncates_to_16_bits() {
    assert_eq!(signing_party_count(&[0, 1]), 2);
    assert_eq!(signing_party_count(&[]), 0);
    let many = vec![0u16; 65537];
    assert_eq!(signing_party_count(&many), 1);
}

#[test]
fn hex_is_lowercase_two_digits_per_byte() {
    assert_eq!(hex_string(&vec![0x00, 0x0f, 0xa0, 0xff]), "000fa0ff");
    assert_eq!(hex_string(&Vec::new()), "");
    assert_eq!(hex_string(&b"keygen".to_vec()), "6b657967656e");
}

#[test]
fn decimal_rendering() {
    assert_eq!(decimal_string(0), "0");
    assert_eq!(decimal_string(1_700_000_000), "1700000000");
    assert_eq!(decimal_string(u64::MAX), "18446744073709551615");
    assert_eq!(usize_decimal_string(42), "42");
}

#[test]
fn concatenation() {
    assert_eq!(concat3("a", "-", "b"), "a-b");
}

#[test]
fn proposed_execution_id() {
    assert_eq!(
        execution_id_from_parts("keygen", "SystemTime { tv_sec: 5, tv_nsec: 6 }"),
        b"keygen-SystemTime { tv_sec: 5, tv_nsec: 6 }".to_vec()
    );
}

#[test]
fn jaeger_endpoint_text() {
    assert_eq!(jaeger_endpoint("localhost", 4317), "http://localhost:4317");
}

#[test]
fn phases_propose_different_ids() {
    let t = "SystemTime { tv_sec: 5, tv_nsec: 6 }";
    let aux = execution_id_from_parts("aux", t);
    let keygen = execution_id_from_parts("keygen", t);
    let signing = execution_id_from_parts("signing", t);
    assert_ne!(aux, keygen);
    assert_ne!(aux, signing);
    assert_ne!(keygen, signing);
    assert_eq!(aux, b"aux-SystemTime { tv_sec: 5, tv_nsec: 6 }".to_vec());
}
