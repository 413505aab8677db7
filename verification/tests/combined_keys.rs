use enr_keys::CombinedKey;
use enr_keys::KeyError;
use enr_keys::RecordPayload;

fn hex_val(c: u8) -> u8 {
    match c {
        b'0'..=b'9' => c - b'0',
        b'a'..=b'f' => c - b'a' + 10,
        b'A'..=b'F' => c - b'A' + 10,
        _ => panic!("not a hex digit"),
    }
}

fn hex(s: &str) -> Vec<u8> {
    let b = s.as_bytes();
    assert!(b.len() % 2 == 0);
    let mut out = Vec::new();
    let mut i = 0;
    while i < b.len() {
        out.push(hex_val(b[i]) * 16 + hex_val(b[i + 1]));
        i += 2;
    }
    out
}

fn payload(fields: Vec<(&str, Vec<u8>)>) -> RecordPayload {
    RecordPayload {
        entries: fields.into_iter().map(|(k, v)| (k.to_string(), v)).collect(),
    }
}

#[test]
fn sign_verify_round_trip_secp256k1() {
    let key = CombinedKey::generate_secp256k1();
    let public = key.public();
    let msg = b"some discovery record content".to_vec();
    let sig = key.sign_v4(&msg).unwrap();
    assert_eq!(sig.len(), 64);
    assert!(public.verify_v4(&msg, &sig));
}

#[test]
fn sign_verify_round_trip_ed25519() {
    let key = CombinedKey::generate_ed25519();
    let public = key.public();
    let msg = b"some discovery record content".to_vec();
    let sig = key.sign_v4(&msg).unwrap();
    assert_eq!(sig.len(), 64);
    assert!(public.verify_v4(&msg, &sig));
}

#[test]
fn flipped_signature_bit_fails_secp256k1() {
    let key = CombinedKey::generate_secp256k1();
    let public = key.public();
    let msg = b"tamper with me".to_vec();
    let sig = key.sign_v4(&msg).unwrap();
    for byte in 0..sig.len() {
        let mut bad = sig.clone();
        bad[byte] ^= 1;
        assert!(!public.verify_v4(&msg, &bad));
    }
}

#[test]
fn flipped_signature_bit_fails_ed25519() {
    let key = CombinedKey::generate_ed25519();
    let public = key.public();
    let msg = b"tamper with me".to_vec();
    let sig = key.sign_v4(&msg).unwrap();
    let mut bad = sig.clone();
    bad[0] ^= 0x80;
    assert!(!public.verify_v4(&msg, &bad));
    let mut bad = sig.clone();
    bad[63] ^= 1;
    assert!(!public.verify_v4(&msg, &bad));
}

#[test]
fn flipped_message_bit_fails_both_schemes() {
    for key in [CombinedKey::generate_secp256k1(), CombinedKey::generate_ed25519()] {
        let public = key.public();
        let msg = b"exact message".to_vec();
        let sig = key.sign_v4(&msg).unwrap();
        let mut bad = msg.clone();
        bad[0] ^= 1;
        assert!(!public.verify_v4(&bad, &sig));
    }
}

#[test]
fn malformed_signature_bytes_verify_false() {
    for key in [CombinedKey::generate_secp256k1(), CombinedKey::generate_ed25519()] {
        let public = key.public();
        let msg = b"whatever".to_vec();
        assert!(!public.verify_v4(&msg, &[]));
        assert!(!public.verify_v4(&msg, &[0u8; 63]));
        assert!(!public.verify_v4(&msg, &[0u8; 64]));
        assert!(!public.verify_v4(&msg, &[0xffu8; 65]));
    }
}

#[test]
fn export_import_round_trip_secp256k1() {
    let key = CombinedKey::generate_secp256k1();
    let mut raw = key.encode();
    let imported = CombinedKey::secp256k1_from_bytes(&mut raw).unwrap();
    assert_eq!(imported.public().encode(), key.public().encode());
}

#[test]
fn export_import_round_trip_ed25519() {
    let key = CombinedKey::generate_ed25519();
    let mut raw = key.encode();
    let imported = CombinedKey::ed25519_from_bytes(&mut raw).unwrap();
    assert_eq!(imported.public().encode(), key.public().encode());
}

#[test]
fn import_wipes_buffer_on_success() {
    let key = CombinedKey::generate_secp256k1();
    let mut raw = key.encode();
    assert!(CombinedKey::secp256k1_from_bytes(&mut raw).is_ok());
    assert_eq!(raw, vec![0u8; 32]);
}

#[test]
fn import_wrong_length_fails_and_wipes_secp256k1() {
    let mut short = vec![7u8; 31];
    match CombinedKey::secp256k1_from_bytes(&mut short) {
        Err(KeyError::InvalidKeyEncoding) => {}
        other => panic!("unexpected result: {:?}", other.map(|_| ())),
    }
    assert_eq!(short, vec![0u8; 31]);

    let mut long = vec![7u8; 33];
    assert!(CombinedKey::secp256k1_from_bytes(&mut long).is_err());
    assert_eq!(long, vec![0u8; 33]);
}

#[test]
fn import_wrong_length_fails_and_wipes_ed25519() {
    let mut short = vec![9u8; 16];
    match CombinedKey::ed25519_from_bytes(&mut short) {
        Err(KeyError::InvalidKeyEncoding) => {}
        other => panic!("unexpected result: {:?}", other.map(|_| ())),
    }
    assert_eq!(short, vec![0u8; 16]);
}

#[test]
fn import_out_of_range_scalar_fails_and_wipes() {
    // Zero is never a valid secp256k1 scalar.
    let mut zero = vec![0u8; 32];
    match CombinedKey::secp256k1_from_bytes(&mut zero) {
        Err(KeyError::InvalidKeyEncoding) => {}
        _ => panic!("zero scalar must be rejected"),
    }
    assert_eq!(zero, vec![0u8; 32]);

    // All-ones lies above the curve order.
    let mut high = vec![0xffu8; 32];
    match CombinedKey::secp256k1_from_bytes(&mut high) {
        Err(KeyError::InvalidKeyEncoding) => {}
        _ => panic!("overflowing scalar must be rejected"),
    }
    assert_eq!(high, vec![0u8; 32]);

    // The same bytes are a fine ed25519 secret.
    let mut high = vec![0xffu8; 32];
    assert!(CombinedKey::ed25519_from_bytes(&mut high).is_ok());
}

#[test]
fn cross_scheme_verification_fails() {
    let secp = CombinedKey::generate_secp256k1();
    let ed = CombinedKey::generate_ed25519();
    let msg = b"nonempty message".to_vec();
    let secp_sig = secp.sign_v4(&msg).unwrap();
    let ed_sig = ed.sign_v4(&msg).unwrap();
    assert!(!ed.public().verify_v4(&msg, &secp_sig));
    assert!(!secp.public().verify_v4(&msg, &ed_sig));
}

#[test]
fn public_key_differs_from_secret() {
    let secp = CombinedKey::generate_secp256k1();
    assert_ne!(secp.public().encode(), secp.encode());
    let ed = CombinedKey::generate_ed25519();
    assert_ne!(ed.public().encode(), ed.encode());
}

#[test]
fn encodings_have_scheme_sizes() {
    let secp = CombinedKey::generate_secp256k1().public();
    assert_eq!(secp.encode().len(), 33);
    assert_eq!(secp.encode_uncompressed().len(), 65);
    assert_ne!(secp.encode(), secp.encode_uncompressed());
    let ed = CombinedKey::generate_ed25519().public();
    assert_eq!(ed.encode().len(), 32);
    assert_eq!(ed.encode_uncompressed(), ed.encode());
}

#[test]
fn scheme_tags() {
    assert_eq!(CombinedKey::generate_secp256k1().public().enr_key(), "secp256k1");
    assert_eq!(CombinedKey::generate_ed25519().public().enr_key(), "ed25519");
}

#[test]
fn secp256k1_known_public_key() {
    // The public key of the scalar 1 is the generator point.
    let mut one = vec![0u8; 32];
    one[31] = 1;
    let key = CombinedKey::secp256k1_from_bytes(&mut one).unwrap();
    let public = key.public();
    assert_eq!(
        public.encode(),
        hex("0279be667ef9dcbbac55a06295ce870b07029bfcdb2dce28d959f2815b16f81798")
    );
    assert_eq!(
        public.encode_uncompressed(),
        hex("0479be667ef9dcbbac55a06295ce870b07029bfcdb2dce28d959f2815b16f81798483ada7726a3c4655da4fbfc0e1108a8fd17b448a68554199c47d08ffb10d4b8")
    );
}

#[test]
fn ed25519_known_answer() {
    // Test vector 1 of RFC 8032: secret, public key, and the signature of
    // the empty message.
    let mut secret = hex("9d61b19deffd5a60ba844af492ec2cc44449c5697b326919703bac031cae7f60");
    let key = CombinedKey::ed25519_from_bytes(&mut secret).unwrap();
    let public = key.public();
    assert_eq!(
        public.encode(),
        hex("d75a980182b10ab7d54bfed3c964073a0ee172f3daa62325af021a68f707511a")
    );
    let sig = key.sign_v4(&[]).unwrap();
    assert_eq!(
        sig,
        hex("e5564300c360ac729086e2cc806e828a84877f1eb8e5d974d873e065224901555fb8821590a33bacc61e39701cf9b46bd25bf5f0595bbe24655141438e7a100b")
    );
    assert!(public.verify_v4(&[], &sig));
}

#[test]
fn resolve_ed25519_only_field() {
    let ed = CombinedKey::generate_ed25519();
    let p = payload(vec![("ed25519", ed.public().encode())]);
    let resolved = CombinedKey::enr_to_public(&p).unwrap();
    assert_eq!(resolved.enr_key(), "ed25519");
    assert_eq!(resolved.encode(), ed.public().encode());
}

#[test]
fn resolve_prefers_secp256k1_when_both_present() {
    let secp = CombinedKey::generate_secp256k1();
    let ed = CombinedKey::generate_ed25519();
    let p = payload(vec![
        ("ed25519", ed.public().encode()),
        ("secp256k1", secp.public().encode()),
    ]);
    let resolved = CombinedKey::enr_to_public(&p).unwrap();
    assert_eq!(resolved.enr_key(), "secp256k1");
    assert_eq!(resolved.encode(), secp.public().encode());
}

#[test]
fn resolve_no_recognized_scheme() {
    let empty = payload(vec![]);
    match CombinedKey::enr_to_public(&empty) {
        Err(KeyError::NoRecognizedScheme) => {}
        _ => panic!("empty payload must not resolve"),
    }

    let unrelated = payload(vec![("id", b"v4".to_vec()), ("ip", vec![127, 0, 0, 1])]);
    match CombinedKey::enr_to_public(&unrelated) {
        Err(KeyError::NoRecognizedScheme) => {}
        _ => panic!("payload without reserved fields must not resolve"),
    }
}

#[test]
fn resolve_falls_through_unparseable_secp_field() {
    let ed = CombinedKey::generate_ed25519();
    let p = payload(vec![
        ("secp256k1", vec![0u8; 33]),
        ("ed25519", ed.public().encode()),
    ]);
    let resolved = CombinedKey::enr_to_public(&p).unwrap();
    assert_eq!(resolved.enr_key(), "ed25519");
}

#[test]
fn resolve_rejects_unparseable_fields() {
    let p = payload(vec![
        ("secp256k1", vec![1u8; 10]),
        ("ed25519", vec![2u8; 31]),
    ]);
    match CombinedKey::enr_to_public(&p) {
        Err(KeyError::NoRecognizedScheme) => {}
        _ => panic!("garbage reserved fields must not resolve"),
    }
}

#[test]
fn resolve_canonicalizes_uncompressed_secp_field() {
    let secp = CombinedKey::generate_secp256k1();
    let p = payload(vec![("secp256k1", secp.public().encode_uncompressed())]);
    let resolved = CombinedKey::enr_to_public(&p).unwrap();
    assert_eq!(resolved.encode(), secp.public().encode());
}

#[test]
fn resolve_reads_first_matching_entry() {
    let a = CombinedKey::generate_ed25519();
    let b = CombinedKey::generate_ed25519();
    let p = payload(vec![
        ("ed25519", a.public().encode()),
        ("ed25519", b.public().encode()),
    ]);
    let resolved = CombinedKey::enr_to_public(&p).unwrap();
    assert_eq!(resolved.encode(), a.public().encode());
}

#[test]
fn public_key_equality() {
    let key = CombinedKey::generate_ed25519();
    let p1 = key.public();
    let p2 = key.public();
    assert!(p1 == p2);
    let other = CombinedKey::generate_secp256k1().public();
    assert!(p1 != other);
}

#[test]
fn hello_scenario_ed25519() {
    let key = CombinedKey::generate_ed25519();
    let public = key.public();
    let msg = b"hello".to_vec();
    let sig = key.sign_v4(&msg).unwrap();
    assert!(public.verify_v4(&msg, &sig));

    let mut flipped = sig.clone();
    let last = flipped.len() - 1;
    flipped[last] ^= 1;
    assert!(!public.verify_v4(&msg, &flipped));

    let mut raw = key.encode();
    let imported = CombinedKey::ed25519_from_bytes(&mut raw).unwrap();
    assert_eq!(imported.public().encode(), public.encode());
}

#[test]
fn generated_keys_are_distinct() {
    let a = CombinedKey::generate_secp256k1();
    let b = CombinedKey::generate_secp256k1();
    assert_ne!(a.encode(), b.encode());
    let c = CombinedKey::generate_ed25519();
    let d = CombinedKey::generate_ed25519();
    assert_ne!(c.encode(), d.encode());
}
