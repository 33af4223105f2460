//! Tests of the key resolver: decoding, the get-or-create protocol,
//! determinism of derivation, and secure erasure.

use chaindb_common::error::Error;
use chaindb_common::hex::{hex_decode, hex_encode};
use chaindb_common::identity::{scrub_secret_buffer, Ed25519SecretKey, Keypair};
use chaindb_common::node_key::{
    decode_secret, resolve_file_read, AfterRead, FileReadOutcome, NodeKeyConfig, Resolution,
    Secret, WriteOutcome,
};

fn secret_key(bytes: Vec<u8>) -> Ed25519SecretKey {
    Ed25519SecretKey::from_bytes(bytes).unwrap_or_else(|_| panic!("32 bytes must be accepted"))
}

#[test]
fn hex_decodes_lower_and_upper_case() {
    assert_eq!(hex_decode(b"00ff10"), Some(vec![0u8, 255, 16]));
    assert_eq!(hex_decode(b"00FF10"), Some(vec![0u8, 255, 16]));
    assert_eq!(hex_decode(b""), Some(vec![]));
}

#[test]
fn hex_rejects_odd_length_and_bad_digits() {
    assert_eq!(hex_decode(b"0"), None);
    assert_eq!(hex_decode(b"0g"), None);
    assert_eq!(hex_decode(b"zz"), None);
}

#[test]
fn hex_encodes_lower_case() {
    assert_eq!(hex_encode(&[0u8, 255, 16]), b"00ff10".to_vec());
    assert_eq!(hex_encode(&[]), Vec::<u8>::new());
}

#[test]
fn hex_round_trips() {
    let bytes: Vec<u8> = (0u8..=255).collect();
    let encoded = hex_encode(&bytes);
    assert_eq!(hex_decode(&encoded), Some(bytes));
}

#[test]
fn decode_accepts_64_hex_characters() {
    let content: Vec<u8> = b"11".repeat(32);
    let key = decode_secret(&content).unwrap_or_else(|_| panic!("hex content must decode"));
    assert_eq!(key.as_bytes(), &vec![0x11u8; 32]);
}

#[test]
fn decode_accepts_32_raw_bytes() {
    let content = vec![7u8; 32];
    let key = decode_secret(&content).unwrap_or_else(|_| panic!("raw content must decode"));
    assert_eq!(key.as_bytes(), &content);
}

#[test]
fn decode_rejects_other_lengths() {
    for len in [0usize, 31, 33, 63, 65, 128] {
        let content = vec![0x41u8; len];
        match decode_secret(&content) {
            Err(Error::Decode(_)) => {}
            _ => panic!("content of length {} must be a decode error", len),
        }
    }
}

#[test]
fn decode_rejects_64_bytes_of_invalid_hex() {
    let mut content: Vec<u8> = b"11".repeat(32);
    content[10] = b'x';
    match decode_secret(&content) {
        Err(Error::Decode(_)) => {}
        _ => panic!("invalid hex of length 64 must be a decode error"),
    }
}

#[test]
fn input_secret_resolves_deterministically() {
    let bytes = vec![42u8; 32];
    let resolve = |bytes: Vec<u8>| -> Keypair {
        let config = NodeKeyConfig::Ed25519(Secret::Input(secret_key(bytes)));
        match config.begin_resolve() {
            Resolution::Ready(kp) => kp,
            Resolution::NeedFile(_) => panic!("an input secret needs no file"),
        }
    };
    let first = resolve(bytes.clone());
    let second = resolve(bytes.clone());
    assert!(first == second);
    assert_eq!(first.secret().as_bytes(), &bytes);
    assert_eq!(first.public_identifier(), second.public_identifier());
}

#[test]
fn new_secret_resolves_without_io() {
    let config = NodeKeyConfig::Ed25519(Secret::<Ed25519SecretKey>::New);
    match config.begin_resolve() {
        Resolution::Ready(kp) => {
            assert_eq!(kp.secret().as_bytes().len(), 32);
            assert_eq!(kp.public_bytes().len(), 32);
        }
        Resolution::NeedFile(_) => panic!("a new secret needs no file"),
    }
}

#[test]
fn file_secret_asks_for_its_path() {
    let config = NodeKeyConfig::Ed25519(Secret::<Ed25519SecretKey>::File(String::from(
        "/tmp/net/secret_ed25519",
    )));
    match config.begin_resolve() {
        Resolution::NeedFile(path) => assert_eq!(path, "/tmp/net/secret_ed25519"),
        Resolution::Ready(_) => panic!("a file secret needs the file read first"),
    }
}

#[test]
fn absent_file_generates_and_persists_the_same_keypair() {
    let path = String::from("/tmp/net/secret_ed25519");
    let pending = match resolve_file_read(path.clone(), FileReadOutcome::Absent) {
        Ok(AfterRead::NeedWrite(pw)) => pw,
        _ => panic!("an absent file must lead to a write"),
    };
    assert_eq!(pending.path(), &path);
    assert_eq!(pending.content().len(), 32);

    // What the protocol writes is exactly what a later read resolves to.
    let written = pending.content().clone();
    let first = pending
        .finish(WriteOutcome::Written)
        .unwrap_or_else(|_| panic!("a successful write must yield the keypair"));
    let second = match resolve_file_read(path, FileReadOutcome::Content(written)) {
        Ok(AfterRead::Ready(kp)) => kp,
        _ => panic!("the written content must decode"),
    };
    assert!(first == second);
}

#[test]
fn failed_write_surfaces_as_io_error() {
    let pending = match resolve_file_read(String::from("p"), FileReadOutcome::Absent) {
        Ok(AfterRead::NeedWrite(pw)) => pw,
        _ => panic!("an absent file must lead to a write"),
    };
    match pending.finish(WriteOutcome::Failed(String::from("file exists"))) {
        Err(Error::Io(m)) => assert_eq!(m, "file exists"),
        _ => panic!("a failed write must surface as an I/O error"),
    }
}

#[test]
fn racing_creation_loser_fails_cleanly() {
    // Two first-time evaluations of the same absent file both generate;
    // the one whose exclusive create fails surfaces an error instead of
    // overwriting the winner's secret.
    let path = String::from("/tmp/net/secret_ed25519");
    let winner = match resolve_file_read(path.clone(), FileReadOutcome::Absent) {
        Ok(AfterRead::NeedWrite(pw)) => pw,
        _ => panic!("an absent file must lead to a write"),
    };
    let loser = match resolve_file_read(path, FileReadOutcome::Absent) {
        Ok(AfterRead::NeedWrite(pw)) => pw,
        _ => panic!("an absent file must lead to a write"),
    };
    let kept = winner
        .finish(WriteOutcome::Written)
        .unwrap_or_else(|_| panic!("the winner keeps its keypair"));
    assert_eq!(kept.secret().as_bytes().len(), 32);
    match loser.finish(WriteOutcome::Failed(String::from("File exists"))) {
        Err(Error::Io(_)) => {}
        _ => panic!("the loser must observe a creation failure"),
    }
}

#[test]
fn generated_secrets_differ_between_evaluations() {
    let generate = || match NodeKeyConfig::Ed25519(Secret::<Ed25519SecretKey>::New).begin_resolve()
    {
        Resolution::Ready(kp) => kp,
        Resolution::NeedFile(_) => panic!("a new secret needs no file"),
    };
    let first = generate();
    let second = generate();
    assert!(first != second);
    assert_ne!(first.public_bytes(), second.public_bytes());
}

#[test]
fn failed_read_is_not_treated_as_absent() {
    match resolve_file_read(
        String::from("p"),
        FileReadOutcome::Failed(String::from("permission denied")),
    ) {
        Err(Error::Io(m)) => assert_eq!(m, "permission denied"),
        _ => panic!("a failed read must surface as an I/O error"),
    }
}

#[test]
fn hex_encoded_file_resolves_to_the_same_keypair_as_raw() {
    let bytes = vec![9u8; 32];
    let raw = match resolve_file_read(String::from("p"), FileReadOutcome::Content(bytes.clone())) {
        Ok(AfterRead::Ready(kp)) => kp,
        _ => panic!("raw content must decode"),
    };
    let hex = hex_encode(&bytes);
    let hexed = match resolve_file_read(String::from("p"), FileReadOutcome::Content(hex)) {
        Ok(AfterRead::Ready(kp)) => kp,
        _ => panic!("hex content must decode"),
    };
    assert!(raw == hexed);
}

#[test]
fn derivation_matches_the_underlying_scheme() {
    // The keypair's public half and identifier must be what libp2p's
    // Ed25519 derives for the same secret bytes, not an echo of the input.
    let bytes = vec![5u8; 32];
    let kp = Keypair::from_secret(secret_key(bytes.clone()));

    let mut copy = bytes.clone();
    let lp_secret = libp2p::identity::ed25519::SecretKey::try_from_bytes(copy.as_mut_slice())
        .unwrap_or_else(|_| panic!("32 bytes must be accepted"));
    let lp_keypair = libp2p::identity::ed25519::Keypair::from(lp_secret);
    let lp_public = lp_keypair.public().to_bytes().to_vec();
    assert_eq!(kp.public_bytes(), &lp_public);
    assert_ne!(kp.public_bytes(), &bytes);

    let lp_peer = libp2p::identity::PublicKey::from(lp_keypair.public())
        .to_peer_id()
        .to_base58();
    assert_eq!(kp.public_identifier(), lp_peer);
}

#[test]
fn scrub_erases_the_buffer() {
    let mut buffer = vec![3u8, 1, 4, 1, 5];
    scrub_secret_buffer(&mut buffer);
    assert!(buffer.is_empty());
}

#[test]
fn describe_never_shows_key_bytes() {
    let input: Secret<Ed25519SecretKey> = Secret::Input(secret_key(vec![0x2au8; 32]));
    assert_eq!(input.describe(), "Secret::Input");
    let file: Secret<Ed25519SecretKey> = Secret::File(String::from("/tmp/k"));
    assert_eq!(file.describe(), "Secret::File(/tmp/k)");
    let fresh: Secret<Ed25519SecretKey> = Secret::New;
    assert_eq!(fresh.describe(), "Secret::New");
}

#[test]
fn error_messages_name_their_kind() {
    assert_eq!(
        Error::Io(String::from("disk gone")).message(),
        "I/O error: disk gone"
    );
    assert_eq!(
        Error::Input(String::from("bad value")).message(),
        "Invalid input: bad value"
    );
    assert_eq!(
        Error::Decode(String::from("short file")).message(),
        "Decode error: short file"
    );
}
