//! The stdout forwarder: the byte sink a sandboxed program sees as its
//! standard output.
//!
//! Each write is wrapped in a `ProgramStdout` message tagged with the
//! program's PID and sent back to the datagram peer that submitted the
//! bundle.  The sandbox is always told the whole buffer was accepted:
//! encoding or transport trouble is swallowed so that a program can never
//! stall on remote loss.  This module decides what frame to send and what
//! length to report; the polling and the socket live in the driver.

use vstd::prelude::*;

use crate::messages::{spec_encode_message, encode_message, MessageModel, NetworkMessage,
    MAX_DATAGRAM_BYTES};

verus! {

/// The forwarding decision state for one program's standard output: which
/// PID to tag writes with, and whether a reply peer exists at all.
#[derive(Clone, Copy)]
pub struct WasiStdioSimpleForwarder {
    /// The PID stamped into every `ProgramStdout` frame.
    pub our_pid: u64,
    /// Whether a reply peer and socket exist; without one, writes are
    /// silently accepted and nothing is framed.
    pub has_reply: bool,
}

impl WasiStdioSimpleForwarder {
    /// A forwarder with no reply peer: every write is accepted and dropped.
    pub fn new_nop() -> (f: WasiStdioSimpleForwarder)
        ensures
            f.our_pid == 0,
            !f.has_reply,
    {
        WasiStdioSimpleForwarder { our_pid: 0, has_reply: false }
    }

    /// A forwarder that frames writes exactly when a reply peer exists; the
    /// driver passes whether it holds both a peer address and a socket.
    pub fn new_maybe_udp(has_reply: bool) -> (f: WasiStdioSimpleForwarder)
        ensures
            f.our_pid == 0,
            f.has_reply == has_reply,
    {
        WasiStdioSimpleForwarder { our_pid: 0, has_reply: has_reply }
    }

    /// Stamps the forwarder with the PID the executor issued.
    pub fn set_pid(&mut self, pid: u64)
        ensures
            final(self).our_pid == pid,
            final(self).has_reply == old(self).has_reply,
    {
        self.our_pid = pid;
    }

    /// One write from the sandbox: the frame to send, if any, and the
    /// length to report.  The reported length is always the whole buffer —
    /// a missing peer or an over-long frame is the host's problem, never
    /// the sandbox's.
    pub fn write_frame(&self, buf: &[u8]) -> (r: (Option<Vec<u8>>, usize))
        ensures
            r.1 == buf@.len(),
            self.has_reply && spec_encode_message(
                MessageModel::ProgramStdout { from_pid: self.our_pid, data: buf@ },
            ).len() <= MAX_DATAGRAM_BYTES ==> (r.0 matches Some(frame) && frame@
                == spec_encode_message(
                MessageModel::ProgramStdout { from_pid: self.our_pid, data: buf@ },
            )),
            !self.has_reply ==> r.0 is None,
            spec_encode_message(
                MessageModel::ProgramStdout { from_pid: self.our_pid, data: buf@ },
            ).len() > MAX_DATAGRAM_BYTES ==> r.0 is None,
            r.0 matches Some(frame) ==> (self.has_reply && frame@ == spec_encode_message(
                MessageModel::ProgramStdout { from_pid: self.our_pid, data: buf@ },
            )),
    {
        if !self.has_reply {
            return (None, buf.len());
        }
        let message = NetworkMessage::ProgramStdout {
            from_pid: self.our_pid,
            data: vstd::slice::slice_to_vec(buf),
        };
        match encode_message(&message) {
            Ok(frame) => (Some(frame), buf.len()),
            Err(_) => (None, buf.len()),
        }
    }

    /// The exit notice sent when a program terminates, if it fits a
    /// datagram (it always does: the frame is thirteen bytes).
    pub fn exit_frame(&self, exit_code: u32) -> (frame: Option<Vec<u8>>)
        ensures
            frame matches Some(f) ==> f@ == spec_encode_message(
                MessageModel::ProgramExit { from_pid: self.our_pid, exit_code: exit_code },
            ),
            !self.has_reply ==> frame is None,
            self.has_reply ==> frame is Some,
    {
        if !self.has_reply {
            return None;
        }
        proof {
            vstd::bytes::lemma_auto_spec_u64_to_from_le_bytes();
            vstd::bytes::lemma_auto_spec_u32_to_from_le_bytes();
        }
        let message = NetworkMessage::ProgramExit { from_pid: self.our_pid, exit_code };
        match encode_message(&message) {
            Ok(frame) => Some(frame),
            Err(_) => None,
        }
    }
}

} // verus!
