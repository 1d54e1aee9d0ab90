use weverywhere::executor::{
    Executor, PollExit, ProgramState, RunOutcome, EXIT_CODE_CANCELLED, EXIT_CODE_FUEL_EXHAUSTED,
    EXIT_CODE_OK,
};
use weverywhere::forwarder::WasiStdioSimpleForwarder;
use weverywhere::identity::sign_identity;
use weverywhere::messages::{decode_message, encode_message, NetworkMessage};
use weverywhere::program::{sign_bundle, AdmitError, ProgramData};

const NOW: u64 = 1_700_000_000;
const SKEW: u64 = 30;
const MAX_WASM: u64 = 65_536;

fn signed_bundle(private_key: &[u8; 32], wasm: Vec<u8>) -> ProgramData {
    let id = sign_identity(private_key, "sender", NOW, 600);
    sign_bundle(private_key, id, "hello", wasm)
}

fn sender_public_key(private_key: &[u8; 32]) -> Vec<u8> {
    ed25519_dalek::SigningKey::from_bytes(private_key)
        .verifying_key()
        .to_bytes()
        .to_vec()
}

#[test]
fn happy_path_emits_stdout_then_exit() {
    let key = [21u8; 32];
    let mut executor = Executor::new(MAX_WASM, 128);
    executor.add_trusted_key("sender".to_string(), sender_public_key(&key));
    let bundle = signed_bundle(&key, b"\0asm-hello".to_vec());
    let pid = executor.begin_exec(bundle, NOW, SKEW).expect("a trusted bundle is admitted");
    assert_eq!(pid, 0);
    let row = executor.get_running(pid).expect("the program is live");
    assert!(row.trusted);
    assert_eq!(row.fuel_budget, u64::MAX);
    assert_eq!(row.state, ProgramState::Admitted);

    let mut forwarder = WasiStdioSimpleForwarder::new_maybe_udp(true);
    forwarder.set_pid(pid);
    let (frame, accepted) = forwarder.write_frame(b"hi");
    assert_eq!(accepted, 2);
    match decode_message(&frame.expect("a reply peer exists")) {
        Ok(NetworkMessage::ProgramStdout { from_pid, data }) => {
            assert_eq!(from_pid, 0);
            assert_eq!(data, b"hi".to_vec());
        }
        _ => panic!("the stdout frame decodes to the stdout message"),
    }

    assert!(executor.mark_running(pid));
    let code = executor.record_exit(pid, RunOutcome::Completed).expect("the program was live");
    assert_eq!(code, EXIT_CODE_OK);
    let exit_frame = forwarder.exit_frame(code).expect("a reply peer exists");
    match decode_message(&exit_frame) {
        Ok(NetworkMessage::ProgramExit { from_pid, exit_code }) => {
            assert_eq!(from_pid, 0);
            assert_eq!(exit_code, 0);
        }
        _ => panic!("the exit frame decodes to the exit message"),
    }
    assert_eq!(executor.poll_pid_exit(pid), PollExit::Exited(0));
}

#[test]
fn untrusted_bundle_is_admitted_with_small_fuel() {
    let key = [22u8; 32];
    let mut executor = Executor::new(MAX_WASM, 128);
    let bundle = signed_bundle(&key, b"\0asm-spin".to_vec());
    let pid = executor.begin_exec(bundle, NOW, SKEW).expect("a valid bundle is admitted");
    assert_eq!(pid, 0);
    let row = executor.get_running(pid).expect("the program is live");
    assert!(!row.trusted);
    assert_eq!(row.fuel_budget, 16_384);
    let code = executor.record_exit(pid, RunOutcome::FuelExhausted).expect("it was live");
    assert_eq!(code, EXIT_CODE_FUEL_EXHAUSTED);
    assert_eq!(executor.poll_pid_exit(pid), PollExit::Exited(EXIT_CODE_FUEL_EXHAUSTED));
}

#[test]
fn tampered_bundle_is_not_admitted() {
    let key = [23u8; 32];
    let mut executor = Executor::new(MAX_WASM, 128);
    let mut bundle = signed_bundle(&key, b"\0asm-data".to_vec());
    bundle.wasm_program_bytes[3] ^= 1;
    let r = executor.begin_exec(bundle, NOW, SKEW);
    assert_eq!(r, Err(AdmitError::BadSignature));
    assert!(executor.get_running(0).is_none());
    let fresh = signed_bundle(&key, b"\0asm-data".to_vec());
    assert_eq!(executor.begin_exec(fresh, NOW, SKEW), Ok(0));
}

#[test]
fn expired_identity_is_not_admitted() {
    let key = [24u8; 32];
    let mut executor = Executor::new(MAX_WASM, 128);
    let validity: u64 = 600;
    let id = sign_identity(&key, "sender", NOW - validity - 1, validity as u16);
    let bundle = sign_bundle(&key, id, "hello", b"\0asm".to_vec());
    assert_eq!(executor.begin_exec(bundle, NOW, SKEW), Err(AdmitError::Expired));
    assert!(executor.get_running(0).is_none());
}

#[test]
fn duplicate_delivery_runs_twice() {
    let key = [25u8; 32];
    let mut executor = Executor::new(MAX_WASM, 128);
    let bundle = signed_bundle(&key, b"\0asm-dup".to_vec());
    let datagram = encode_message(&NetworkMessage::ExecuteRequest { program_data: bundle })
        .expect("a tiny bundle fits");
    let first = executor.handle_datagram(&datagram, NOW, SKEW);
    let second = executor.handle_datagram(&datagram, NOW, SKEW);
    assert_eq!(first, Ok(Some(0)));
    assert_eq!(second, Ok(Some(1)));
    assert!(executor.get_running(0).is_some());
    assert!(executor.get_running(1).is_some());
}

#[test]
fn waiters_before_and_after_exit_observe_the_same_code() {
    let key = [26u8; 32];
    let mut executor = Executor::new(MAX_WASM, 128);
    let bundle = signed_bundle(&key, b"\0asm-wait".to_vec());
    let pid = executor.begin_exec(bundle, NOW, SKEW).expect("admitted");
    assert_eq!(executor.poll_pid_exit(pid), PollExit::StillRunning);
    executor.record_exit(pid, RunOutcome::Completed).expect("it was live");
    assert_eq!(executor.poll_pid_exit(pid), PollExit::Exited(EXIT_CODE_OK));
    assert_eq!(executor.poll_pid_exit(pid), PollExit::Exited(EXIT_CODE_OK));
}

#[test]
fn unknown_pid_polls_unknown() {
    let executor = Executor::new(MAX_WASM, 128);
    assert_eq!(executor.poll_pid_exit(12), PollExit::Unknown);
}

#[test]
fn exit_codes_are_evicted_oldest_first() {
    let key = [27u8; 32];
    let mut executor = Executor::new(MAX_WASM, 1);
    let pid_a = executor
        .begin_exec(signed_bundle(&key, b"\0asm-a".to_vec()), NOW, SKEW)
        .expect("admitted");
    let pid_b = executor
        .begin_exec(signed_bundle(&key, b"\0asm-b".to_vec()), NOW, SKEW)
        .expect("admitted");
    executor.record_exit(pid_a, RunOutcome::Completed);
    executor.record_exit(pid_b, RunOutcome::Trapped);
    assert_eq!(executor.poll_pid_exit(pid_a), PollExit::Unknown);
    assert!(matches!(executor.poll_pid_exit(pid_b), PollExit::Exited(_)));
}

#[test]
fn trust_changes_do_not_touch_running_programs() {
    let key = [28u8; 32];
    let late_key = [29u8; 32];
    let mut executor = Executor::new(MAX_WASM, 128);
    let pid = executor
        .begin_exec(signed_bundle(&key, b"\0asm-frozen".to_vec()), NOW, SKEW)
        .expect("admitted");
    let before = executor.get_running(pid).expect("live");
    assert!(!before.trusted);
    let before_fuel = before.fuel_budget;
    executor.add_trusted_key("sender".to_string(), sender_public_key(&key));
    executor.add_trusted_key("late".to_string(), sender_public_key(&late_key));
    executor.set_untrusted_allowed_instructions(5);
    let after = executor.get_running(pid).expect("still live");
    assert!(!after.trusted);
    assert_eq!(after.fuel_budget, before_fuel);
}

#[test]
fn cancellation_is_flagged_then_recorded() {
    let key = [30u8; 32];
    let mut executor = Executor::new(MAX_WASM, 128);
    let pid = executor
        .begin_exec(signed_bundle(&key, b"\0asm-cancel".to_vec()), NOW, SKEW)
        .expect("admitted");
    assert!(executor.mark_running(pid));
    assert!(executor.terminate_running_pid(pid));
    let row = executor.get_running(pid).expect("still live until the worker yields");
    assert!(row.cancel_requested);
    assert_eq!(row.state, ProgramState::Running);
    let code = executor.record_exit(pid, RunOutcome::Cancelled).expect("it was live");
    assert_eq!(code, EXIT_CODE_CANCELLED);
    assert!(!executor.terminate_running_pid(pid));
}

#[test]
fn datagram_tampered_in_transit_is_rejected_without_a_pid() {
    let key = [31u8; 32];
    let mut executor = Executor::new(MAX_WASM, 128);
    let bundle = signed_bundle(&key, b"\0asm-transit".to_vec());
    let mut datagram = encode_message(&NetworkMessage::ExecuteRequest { program_data: bundle })
        .expect("a tiny bundle fits");
    // The frame ends with the outer signature: its length prefix (8 bytes)
    // and 64 signature bytes; the byte just before them is the last module
    // byte.  Flip it.
    let wasm_end = datagram.len() - 72;
    datagram[wasm_end - 1] ^= 1;
    assert_eq!(
        executor.handle_datagram(&datagram, NOW, SKEW),
        Err(AdmitError::BadSignature)
    );
    assert!(executor.get_running(0).is_none());
}

#[test]
fn garbage_datagram_is_decode_failed() {
    let mut executor = Executor::new(MAX_WASM, 128);
    let r = executor.handle_datagram(&[5u8, 1, 2], NOW, SKEW);
    assert_eq!(r, Err(AdmitError::DecodeFailed));
}

#[test]
fn non_request_messages_are_ignored() {
    let mut executor = Executor::new(MAX_WASM, 128);
    let frame = encode_message(&NetworkMessage::ProgramExit { from_pid: 4, exit_code: 0 })
        .expect("it fits");
    assert_eq!(executor.handle_datagram(&frame, NOW, SKEW), Ok(None));
    assert!(executor.get_running(0).is_none());
}

#[test]
fn trusted_key_count_reflects_additions() {
    let mut executor = Executor::new(MAX_WASM, 128);
    assert_eq!(executor.trusted_key_count(), 0);
    executor.add_trusted_key("a".to_string(), vec![1u8; 32]);
    executor.add_trusted_key("b".to_string(), vec![2u8; 32]);
    assert_eq!(executor.trusted_key_count(), 2);
    executor.add_trusted_key("a".to_string(), vec![3u8; 32]);
    assert_eq!(executor.trusted_key_count(), 2);
    assert!(executor.key_is_trusted(&[3u8; 32]));
    assert!(!executor.key_is_trusted(&[1u8; 32]));
}
