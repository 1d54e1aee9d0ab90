//! The wire protocol: one tagged message per datagram.
//!
//! A datagram carries exactly one [`NetworkMessage`], encoded as a one-byte
//! tag followed by the variant's fields in the primitive forms of
//! [`crate::wire`].  A message must fit a 64 KiB datagram; the encoder
//! refuses anything larger, and the decoder refuses input that is larger,
//! leftover-laden, mis-tagged or truncated.  Decoding is exact: whatever it
//! accepts re-encodes to the very bytes it read.

use vstd::bytes::*;
use vstd::prelude::*;

use crate::program::{
    lemma_parse_bundle_exact, lemma_parse_bundle_round_trip, spec_bundle_fits, spec_bundle_wire,
    spec_parse_bundle, bundle_wire_bytes, read_bundle, ProgramData, ProgramModel,
};
use crate::wire::{
    lemma_parse_u32_exact, lemma_parse_u32_round_trip, lemma_parse_u64_exact,
    lemma_parse_u64_round_trip, lemma_parse_u8_exact, lemma_parse_u8_round_trip,
    lemma_parse_lp_exact, lemma_parse_lp_round_trip, spec_lp, spec_parse_lp, spec_parse_u32,
    spec_parse_u64, spec_parse_u8, read_lp, read_u32, read_u64, read_u8, write_lp, write_u32,
    write_u64, write_u8,
};

verus! {

/// The largest frame that fits one datagram: 64 KiB.
pub const MAX_DATAGRAM_BYTES: usize = 65536;

/// The wire tag of each message variant.
pub const TAG_EXECUTE_REQUEST: u8 = 0;

pub const TAG_PROGRAM_STDOUT: u8 = 1;

pub const TAG_PROGRAM_EXIT: u8 = 2;

/// A message between hosts: a request to execute a bundle, a slice of a
/// program's standard output, or a program's exit notice.
pub enum NetworkMessage {
    /// A signed bundle the sender asks every listening server to execute.
    ExecuteRequest { program_data: ProgramData },
    /// Bytes a running program wrote to its standard output.
    ProgramStdout { from_pid: u64, data: Vec<u8> },
    /// The exit code a program terminated with.
    ProgramExit { from_pid: u64, exit_code: u32 },
}

/// The mathematical content of a [`NetworkMessage`].
#[verifier::ext_equal]
pub enum MessageModel {
    ExecuteRequest { program_data: ProgramModel },
    ProgramStdout { from_pid: u64, data: Seq<u8> },
    ProgramExit { from_pid: u64, exit_code: u32 },
}

impl View for NetworkMessage {
    type V = MessageModel;

    open spec fn view(&self) -> MessageModel {
        match self {
            NetworkMessage::ExecuteRequest { program_data } => MessageModel::ExecuteRequest {
                program_data: program_data@,
            },
            NetworkMessage::ProgramStdout { from_pid, data } => MessageModel::ProgramStdout {
                from_pid: *from_pid,
                data: data@,
            },
            NetworkMessage::ProgramExit { from_pid, exit_code } => MessageModel::ProgramExit {
                from_pid: *from_pid,
                exit_code: *exit_code,
            },
        }
    }
}

/// The bytes a message encodes to: its tag, then its fields.
pub open spec fn spec_encode_message(m: MessageModel) -> Seq<u8> {
    match m {
        MessageModel::ExecuteRequest { program_data } => seq![TAG_EXECUTE_REQUEST]
            + spec_bundle_wire(program_data),
        MessageModel::ProgramStdout { from_pid, data } => seq![TAG_PROGRAM_STDOUT]
            + spec_u64_to_le_bytes(from_pid) + spec_lp(data),
        MessageModel::ProgramExit { from_pid, exit_code } => seq![TAG_PROGRAM_EXIT]
            + spec_u64_to_le_bytes(from_pid) + spec_u32_to_le_bytes(exit_code),
    }
}

/// The message a frame decodes to, if any: the frame must fit a datagram,
/// carry a known tag, parse completely, and leave nothing over.
pub open spec fn spec_decode_message(b: Seq<u8>) -> Option<MessageModel> {
    if b.len() > MAX_DATAGRAM_BYTES {
        None
    } else {
        match spec_parse_u8(b) {
            None => None,
            Some((tag, r1)) => {
                if tag == TAG_EXECUTE_REQUEST {
                    match spec_parse_bundle(r1) {
                        None => None,
                        Some((program_data, rest)) => {
                            if rest.len() == 0 {
                                Some(MessageModel::ExecuteRequest { program_data })
                            } else {
                                None
                            }
                        },
                    }
                } else if tag == TAG_PROGRAM_STDOUT {
                    match spec_parse_u64(r1) {
                        None => None,
                        Some((from_pid, r2)) => match spec_parse_lp(r2) {
                            None => None,
                            Some((data, rest)) => {
                                if rest.len() == 0 {
                                    Some(MessageModel::ProgramStdout { from_pid, data })
                                } else {
                                    None
                                }
                            },
                        },
                    }
                } else if tag == TAG_PROGRAM_EXIT {
                    match spec_parse_u64(r1) {
                        None => None,
                        Some((from_pid, r2)) => match spec_parse_u32(r2) {
                            None => None,
                            Some((exit_code, rest)) => {
                                if rest.len() == 0 {
                                    Some(MessageModel::ProgramExit { from_pid, exit_code })
                                } else {
                                    None
                                }
                            },
                        },
                    }
                } else {
                    None
                }
            },
        }
    }
}

/// Encoding failed.
#[derive(Clone, Copy, Debug, PartialEq, Eq, Structural)]
pub enum EncodeError {
    /// The message does not fit one datagram.
    TooLarge,
}

/// Decoding failed.
#[derive(Clone, Copy, Debug, PartialEq, Eq, Structural)]
pub enum DecodeError {
    /// The input is short, over-long, mis-tagged, or carries leftovers.
    MalformedFrame,
}

/// Encodes a message into one datagram frame; refuses a message whose frame
/// would exceed 64 KiB.
pub fn encode_message(m: &NetworkMessage) -> (r: Result<Vec<u8>, EncodeError>)
    ensures
        match r {
            Ok(frame) => frame@ == spec_encode_message(m@) && frame@.len() <= MAX_DATAGRAM_BYTES,
            Err(e) => spec_encode_message(m@).len() > MAX_DATAGRAM_BYTES && e
                == EncodeError::TooLarge,
        },
{
    let mut out: Vec<u8> = Vec::new();
    match m {
        NetworkMessage::ExecuteRequest { program_data } => {
            write_u8(&mut out, TAG_EXECUTE_REQUEST);
            let mut body = bundle_wire_bytes(program_data);
            out.append(&mut body);
        },
        NetworkMessage::ProgramStdout { from_pid, data } => {
            write_u8(&mut out, TAG_PROGRAM_STDOUT);
            write_u64(&mut out, *from_pid);
            write_lp(&mut out, data.as_slice());
        },
        NetworkMessage::ProgramExit { from_pid, exit_code } => {
            write_u8(&mut out, TAG_PROGRAM_EXIT);
            write_u64(&mut out, *from_pid);
            write_u32(&mut out, *exit_code);
        },
    }
    assert(out@ =~= spec_encode_message(m@));
    if out.len() > MAX_DATAGRAM_BYTES {
        Err(EncodeError::TooLarge)
    } else {
        Ok(out)
    }
}

/// Decodes one datagram frame; fails with `MalformedFrame` on anything but
/// the exact encoding of one message.
pub fn decode_message(b: &[u8]) -> (r: Result<NetworkMessage, DecodeError>)
    ensures
        match r {
            Ok(m) => spec_decode_message(b@) == Some(m@),
            Err(e) => spec_decode_message(b@) is None && e == DecodeError::MalformedFrame,
        },
{
    if b.len() > MAX_DATAGRAM_BYTES {
        return Err(DecodeError::MalformedFrame);
    }
    proof {
        assert(b@.skip(0) =~= b@);
    }
    let (tag, p1) = match read_u8(b, 0) {
        Some(v) => v,
        None => {
            return Err(DecodeError::MalformedFrame);
        },
    };
    if tag == TAG_EXECUTE_REQUEST {
        let (program_data, p2) = match read_bundle(b, p1) {
            Some(v) => v,
            None => {
                return Err(DecodeError::MalformedFrame);
            },
        };
        if p2 == b.len() {
            assert(b@.skip(p2 as int).len() == 0);
            Ok(NetworkMessage::ExecuteRequest { program_data })
        } else {
            assert(b@.skip(p2 as int).len() != 0);
            Err(DecodeError::MalformedFrame)
        }
    } else if tag == TAG_PROGRAM_STDOUT {
        let (from_pid, p2) = match read_u64(b, p1) {
            Some(v) => v,
            None => {
                return Err(DecodeError::MalformedFrame);
            },
        };
        let (data, p3) = match read_lp(b, p2) {
            Some(v) => v,
            None => {
                return Err(DecodeError::MalformedFrame);
            },
        };
        if p3 == b.len() {
            assert(b@.skip(p3 as int).len() == 0);
            Ok(NetworkMessage::ProgramStdout { from_pid, data })
        } else {
            assert(b@.skip(p3 as int).len() != 0);
            Err(DecodeError::MalformedFrame)
        }
    } else if tag == TAG_PROGRAM_EXIT {
        let (from_pid, p2) = match read_u64(b, p1) {
            Some(v) => v,
            None => {
                return Err(DecodeError::MalformedFrame);
            },
        };
        let (exit_code, p3) = match read_u32(b, p2) {
            Some(v) => v,
            None => {
                return Err(DecodeError::MalformedFrame);
            },
        };
        if p3 == b.len() {
            assert(b@.skip(p3 as int).len() == 0);
            Ok(NetworkMessage::ProgramExit { from_pid, exit_code })
        } else {
            assert(b@.skip(p3 as int).len() != 0);
            Err(DecodeError::MalformedFrame)
        }
    } else {
        Err(DecodeError::MalformedFrame)
    }
}

/// Law: decoding an encoded message yields the message back, for every
/// variant whose frame fits one datagram.
pub proof fn lemma_codec_round_trip(m: MessageModel)
    requires
        spec_encode_message(m).len() <= MAX_DATAGRAM_BYTES,
    ensures
        spec_decode_message(spec_encode_message(m)) == Some(m),
{
    let b = spec_encode_message(m);
    match m {
        MessageModel::ExecuteRequest { program_data } => {
            let wire = spec_bundle_wire(program_data);
            assert(b =~= seq![TAG_EXECUTE_REQUEST] + wire);
            lemma_parse_u8_round_trip(TAG_EXECUTE_REQUEST, wire);
            assert(spec_bundle_fits(program_data));
            lemma_parse_bundle_round_trip(program_data, Seq::<u8>::empty());
            assert(wire + Seq::<u8>::empty() =~= wire);
        },
        MessageModel::ProgramStdout { from_pid, data } => {
            let tail = spec_u64_to_le_bytes(from_pid) + spec_lp(data);
            assert(b =~= seq![TAG_PROGRAM_STDOUT] + tail);
            lemma_parse_u8_round_trip(TAG_PROGRAM_STDOUT, tail);
            lemma_parse_u64_round_trip(from_pid, spec_lp(data));
            assert(spec_lp(data) + Seq::<u8>::empty() =~= spec_lp(data));
            lemma_parse_lp_round_trip(data, Seq::<u8>::empty());
        },
        MessageModel::ProgramExit { from_pid, exit_code } => {
            let tail = spec_u64_to_le_bytes(from_pid) + spec_u32_to_le_bytes(exit_code);
            assert(b =~= seq![TAG_PROGRAM_EXIT] + tail);
            lemma_parse_u8_round_trip(TAG_PROGRAM_EXIT, tail);
            lemma_parse_u64_round_trip(from_pid, spec_u32_to_le_bytes(exit_code));
            assert(spec_u32_to_le_bytes(exit_code) + Seq::<u8>::empty() =~= spec_u32_to_le_bytes(
                exit_code,
            ));
            lemma_parse_u32_round_trip(exit_code, Seq::<u8>::empty());
        },
    }
}

/// Law: whatever the decoder accepts re-encodes to the very bytes it read;
/// on all other input it reports a malformed frame.
pub proof fn lemma_decode_is_exact(b: Seq<u8>, m: MessageModel)
    requires
        spec_decode_message(b) == Some(m),
    ensures
        spec_encode_message(m) == b,
        b.len() <= MAX_DATAGRAM_BYTES,
{
    let (tag, r1) = spec_parse_u8(b).unwrap();
    lemma_parse_u8_exact(b, tag, r1);
    if tag == TAG_EXECUTE_REQUEST {
        let (program_data, rest) = spec_parse_bundle(r1).unwrap();
        lemma_parse_bundle_exact(r1, program_data, rest);
        assert(rest =~= Seq::<u8>::empty());
        assert(spec_bundle_wire(program_data) + rest =~= spec_bundle_wire(program_data));
        assert(spec_encode_message(m) =~= b);
    } else if tag == TAG_PROGRAM_STDOUT {
        let (from_pid, r2) = spec_parse_u64(r1).unwrap();
        lemma_parse_u64_exact(r1, from_pid, r2);
        let (data, rest) = spec_parse_lp(r2).unwrap();
        lemma_parse_lp_exact(r2, data, rest);
        assert(rest =~= Seq::<u8>::empty());
        assert(spec_lp(data) + rest =~= spec_lp(data));
        assert(spec_encode_message(m) =~= b);
    } else {
        let (from_pid, r2) = spec_parse_u64(r1).unwrap();
        lemma_parse_u64_exact(r1, from_pid, r2);
        let (exit_code, rest) = spec_parse_u32(r2).unwrap();
        lemma_parse_u32_exact(r2, exit_code, rest);
        assert(rest =~= Seq::<u8>::empty());
        assert(spec_u32_to_le_bytes(exit_code) + rest =~= spec_u32_to_le_bytes(exit_code));
        assert(spec_encode_message(m) =~= b);
    }
}

/// A host's self-description in early handshakes: a display name and raw
/// public-key bytes.
pub struct Identity {
    pub human_name: String,
    pub public_key: Vec<u8>,
}

/// An early, free-form execution request: a message and a marker value.
pub struct ExecuteRequest {
    pub message: String,
    pub misc: u32,
}

/// The self-describing serialization formats the unverified rim can speak
/// for free-form messages.
#[derive(Clone, Copy, Debug, PartialEq, Eq, Structural)]
pub enum Format {
    JSON,
    CBOR,
    BARE,
}

} // verus!
