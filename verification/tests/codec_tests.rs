use weverywhere::identity::{sign_identity, IdentityData};
use weverywhere::messages::{decode_message, encode_message, DecodeError, NetworkMessage};
use weverywhere::program::{sign_bundle, ProgramData};

fn sample_identity() -> IdentityData {
    sign_identity(&[3u8; 32], "codec-host", 1_700_000_000, 600)
}

fn sample_bundle() -> ProgramData {
    sign_bundle(
        &[3u8; 32],
        sample_identity(),
        "demo-program",
        vec![0x00, 0x61, 0x73, 0x6d, 1, 0, 0, 0],
    )
}

#[test]
fn program_exit_has_exact_bytes() {
    let message = NetworkMessage::ProgramExit { from_pid: 1, exit_code: 7 };
    let frame = encode_message(&message).expect("a thirteen-byte frame fits");
    assert_eq!(frame, vec![2u8, 1, 0, 0, 0, 0, 0, 0, 0, 7, 0, 0, 0]);
}

#[test]
fn program_stdout_has_exact_bytes() {
    let message = NetworkMessage::ProgramStdout { from_pid: 0, data: b"hi".to_vec() };
    let frame = encode_message(&message).expect("a short frame fits");
    let mut expected = vec![1u8];
    expected.extend_from_slice(&[0u8; 8]);
    expected.extend_from_slice(&2u64.to_le_bytes());
    expected.extend_from_slice(b"hi");
    assert_eq!(frame, expected);
}

#[test]
fn stdout_round_trips() {
    let message = NetworkMessage::ProgramStdout { from_pid: 42, data: vec![1, 2, 3, 250] };
    let frame = encode_message(&message).expect("it fits");
    match decode_message(&frame) {
        Ok(NetworkMessage::ProgramStdout { from_pid, data }) => {
            assert_eq!(from_pid, 42);
            assert_eq!(data, vec![1, 2, 3, 250]);
        }
        other => panic!("wrong decode: {:?}", result_kind(&other)),
    }
}

#[test]
fn exit_round_trips() {
    let message = NetworkMessage::ProgramExit { from_pid: u64::MAX, exit_code: 0xFFFF_FFFE };
    let frame = encode_message(&message).expect("it fits");
    match decode_message(&frame) {
        Ok(NetworkMessage::ProgramExit { from_pid, exit_code }) => {
            assert_eq!(from_pid, u64::MAX);
            assert_eq!(exit_code, 0xFFFF_FFFE);
        }
        other => panic!("wrong decode: {:?}", result_kind(&other)),
    }
}

#[test]
fn execute_request_round_trips() {
    let bundle = sample_bundle();
    let message = NetworkMessage::ExecuteRequest { program_data: bundle };
    let frame = encode_message(&message).expect("a tiny bundle fits");
    match decode_message(&frame) {
        Ok(NetworkMessage::ExecuteRequest { program_data }) => {
            assert_eq!(program_data.human_name, "demo-program");
            assert_eq!(program_data.wasm_program_bytes, vec![0x00, 0x61, 0x73, 0x6d, 1, 0, 0, 0]);
            assert_eq!(program_data.source.human_name, "codec-host");
            assert_eq!(program_data.source.generated_at_utc0_epoch_s, 1_700_000_000);
            assert_eq!(program_data.source.validity_s, 600);
            assert_eq!(program_data.source.encoded_public_key_fmt, "ed25519");
            let original = sample_bundle();
            assert_eq!(program_data.source.encoded_public_key, original.source.encoded_public_key);
            assert_eq!(program_data.source.signature, original.source.signature);
            assert_eq!(program_data.signature, original.signature);
        }
        other => panic!("wrong decode: {:?}", result_kind(&other)),
    }
}

#[test]
fn non_ascii_name_round_trips() {
    let identity = sign_identity(&[5u8; 32], "h\u{00f4}te-\u{65e5}\u{672c}", 1_700_000_000, 60);
    let bundle = sign_bundle(&[5u8; 32], identity, "caf\u{00e9}", vec![7u8; 3]);
    let frame = encode_message(&NetworkMessage::ExecuteRequest { program_data: bundle })
        .expect("it fits");
    match decode_message(&frame) {
        Ok(NetworkMessage::ExecuteRequest { program_data }) => {
            assert_eq!(program_data.human_name, "caf\u{00e9}");
            assert_eq!(program_data.source.human_name, "h\u{00f4}te-\u{65e5}\u{672c}");
        }
        other => panic!("wrong decode: {:?}", result_kind(&other)),
    }
}

#[test]
fn oversize_execute_request_is_refused_by_sender() {
    let identity = sample_identity();
    let bundle = sign_bundle(&[3u8; 32], identity, "too-big", vec![0u8; 70_000]);
    let r = encode_message(&NetworkMessage::ExecuteRequest { program_data: bundle });
    assert!(r.is_err());
}

#[test]
fn short_input_is_malformed() {
    assert!(matches!(decode_message(&[]), Err(DecodeError::MalformedFrame)));
    assert!(matches!(decode_message(&[1u8, 2, 3]), Err(DecodeError::MalformedFrame)));
}

#[test]
fn unknown_tag_is_malformed() {
    let frame = vec![9u8, 0, 0, 0, 0, 0, 0, 0, 0, 0, 0, 0, 0];
    assert!(matches!(decode_message(&frame), Err(DecodeError::MalformedFrame)));
}

#[test]
fn trailing_bytes_are_malformed() {
    let message = NetworkMessage::ProgramExit { from_pid: 1, exit_code: 7 };
    let mut frame = encode_message(&message).expect("it fits");
    frame.push(0);
    assert!(matches!(decode_message(&frame), Err(DecodeError::MalformedFrame)));
}

#[test]
fn oversize_input_is_malformed() {
    let frame = vec![1u8; 70_000];
    assert!(matches!(decode_message(&frame), Err(DecodeError::MalformedFrame)));
}

#[test]
fn arbitrary_bytes_decode_exactly_or_fail() {
    let samples: Vec<Vec<u8>> = vec![
        vec![],
        vec![0],
        vec![1],
        vec![2, 1, 0, 0, 0, 0, 0, 0, 0, 7, 0, 0],
        vec![2, 1, 0, 0, 0, 0, 0, 0, 0, 7, 0, 0, 0],
        vec![0, 255, 255, 255, 255, 255, 255, 255, 255],
        vec![1, 0, 0, 0, 0, 0, 0, 0, 0, 1, 0, 0, 0, 0, 0, 0, 0, 77],
        vec![37, 14, 92, 3],
        (0u8..=255).collect(),
    ];
    for sample in samples {
        if let Ok(message) = decode_message(&sample) {
            let encoded = encode_message(&message).expect("whatever decodes re-encodes");
            assert_eq!(encoded, sample);
        }
    }
}

fn result_kind(r: &Result<NetworkMessage, DecodeError>) -> &'static str {
    match r {
        Ok(NetworkMessage::ExecuteRequest { .. }) => "ExecuteRequest",
        Ok(NetworkMessage::ProgramStdout { .. }) => "ProgramStdout",
        Ok(NetworkMessage::ProgramExit { .. }) => "ProgramExit",
        Err(_) => "MalformedFrame",
    }
}
