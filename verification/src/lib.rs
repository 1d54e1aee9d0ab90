//! A LAN-scoped distributed executor for sandboxed WASI programs.
//!
//! A controller host signs a program bundle and multicasts it; every server
//! host that recognizes the signer admits the bundle, meters its execution by
//! a fuel budget, and streams its standard output back to the originator.
//! This crate holds the verified core: the identity and bundle format, the
//! wire codec, the trust store, and the executor's admission and lifecycle
//! bookkeeping. The unverified driver around it (sockets, the WASM engine,
//! the async runtime) lives outside and consumes this library through plain
//! values.
//!
//! The guarantees the verifier checks, where to find them:
//!
//! - admission accepts exactly the bundles `verify_bundle` accepts under
//!   the same clock: the contract of [`executor::Executor::begin_exec`];
//! - identities outside their validity window are rejected: the contract
//!   of [`identity::verify_identity`];
//! - issued PIDs grow strictly: [`executor::lemma_pids_strictly_increasing`];
//! - a recorded exit is observed by every poll, and only one code is ever
//!   recorded per PID: the contracts of [`executor::Executor::record_exit`]
//!   and [`executor::Executor::poll_pid_exit`], with
//!   [`executor::lemma_exit_code_unique`];
//! - a program's fuel budget follows its signer's trust at admission time
//!   and never changes afterwards: the contracts of
//!   [`executor::Executor::begin_exec`] and
//!   [`executor::Executor::add_trusted_key`], with
//!   [`executor::lemma_trust_change_leaves_running_programs`];
//! - decoding inverts encoding, and whatever decodes re-encodes to the very
//!   bytes read: [`messages::lemma_codec_round_trip`] and
//!   [`messages::lemma_decode_is_exact`].

pub mod comm;
pub mod config;
pub mod crypto_utils;
pub mod err_utils;
pub mod forwarder;
pub mod fs_utils;
pub mod executor;
pub mod identity;
pub mod messages;
pub mod program;
pub mod sys_utils;
pub mod trust;
pub mod wire;
