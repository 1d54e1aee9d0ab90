use weverywhere::forwarder::WasiStdioSimpleForwarder;
use weverywhere::fs_utils::{format_size_bytes, u64_to_decimal};
use weverywhere::identity::sign_identity;
use weverywhere::program::{ProgramBuildError, ProgramDataBuilder};
use weverywhere::sys_utils::{answer_is_yes, get_global_verbosity, v_is_debug, v_is_everything,
    v_is_info};

#[test]
fn decimal_rendering_is_exact() {
    assert_eq!(u64_to_decimal(0), "0");
    assert_eq!(u64_to_decimal(7), "7");
    assert_eq!(u64_to_decimal(10), "10");
    assert_eq!(u64_to_decimal(1_234_567_890), "1234567890");
    assert_eq!(u64_to_decimal(u64::MAX), "18446744073709551615");
}

#[test]
fn sizes_format_with_one_decimal() {
    assert_eq!(format_size_bytes(0), "0b");
    assert_eq!(format_size_bytes(999), "999b");
    assert_eq!(format_size_bytes(1_000), "1.0kb");
    assert_eq!(format_size_bytes(1_536), "1.5kb");
    assert_eq!(format_size_bytes(999_999), "999.9kb");
    assert_eq!(format_size_bytes(2_000_000), "2.0mb");
    assert_eq!(format_size_bytes(2_950_000), "2.9mb");
    assert_eq!(format_size_bytes(3_100_000_000), "3.1gb");
}

#[test]
fn verbosity_thresholds() {
    assert_eq!(get_global_verbosity(None), 0);
    assert_eq!(get_global_verbosity(Some(2)), 2);
    assert!(!v_is_info(0));
    assert!(v_is_info(1));
    assert!(!v_is_debug(1));
    assert!(v_is_debug(2));
    assert!(!v_is_everything(2));
    assert!(v_is_everything(3));
}

#[test]
fn yes_answers_are_recognized() {
    assert!(answer_is_yes("yes"));
    assert!(answer_is_yes("Y"));
    assert!(answer_is_yes("1"));
    assert!(answer_is_yes("ok yeah"));
    assert!(!answer_is_yes("no"));
    assert!(!answer_is_yes(""));
    assert!(!answer_is_yes("nope"));
}

#[test]
fn builder_assembles_a_bundle() {
    let id = sign_identity(&[31u8; 32], "builder-host", 1_700_000_000, 60);
    let built = ProgramDataBuilder::new()
        .set_human_name("prog")
        .set_wasm_program_bytes(&[1, 2, 3])
        .set_signature(&[9, 9])
        .set_source(&id)
        .build()
        .expect("a source was set");
    assert_eq!(built.human_name, "prog");
    assert_eq!(built.wasm_program_bytes, vec![1, 2, 3]);
    assert_eq!(built.signature, vec![9, 9]);
    assert_eq!(built.source.human_name, "builder-host");
    assert_eq!(built.source.encoded_public_key, id.encoded_public_key);
}

#[test]
fn builder_without_source_fails() {
    let r = ProgramDataBuilder::new().set_human_name("prog").build();
    assert!(matches!(r, Err(ProgramBuildError::NoSource)));
}

#[test]
fn builder_defaults_match_an_unset_bundle() {
    let b = ProgramDataBuilder::new();
    assert_eq!(b.human_name, "UNSET_NAME");
    assert!(b.source.is_none());
    assert!(b.wasm_program_bytes.is_empty());
    assert!(b.signature.is_empty());
}

#[test]
fn oversize_write_is_accepted_but_not_framed() {
    let mut forwarder = WasiStdioSimpleForwarder::new_maybe_udp(true);
    forwarder.set_pid(3);
    let big = vec![7u8; 70_000];
    let (frame, accepted) = forwarder.write_frame(&big);
    assert!(frame.is_none());
    assert_eq!(accepted, 70_000);
}

#[test]
fn nop_forwarder_accepts_and_drops() {
    let forwarder = WasiStdioSimpleForwarder::new_nop();
    let (frame, accepted) = forwarder.write_frame(b"anything");
    assert!(frame.is_none());
    assert_eq!(accepted, 8);
    assert!(forwarder.exit_frame(0).is_none());
}
