//! Host configuration: the host's own identity and the signers it trusts.
//!
//! The layered on-disk format, include processing and key generation live
//! outside the core; what arrives here are the plain values a loaded
//! configuration carries.

use vstd::prelude::*;

verus! {

/// A loaded host configuration.
pub struct Config {
    /// The host's own identity: its name and where its key lives.
    pub identity: IdentityConfig,
    /// The signers whose bundles get the trusted fuel budget.
    pub trusted: Vec<SingleTrustedKey>,
    /// Programs to launch at startup.
    pub startup_program: Vec<SingleStartupProgram>,
    /// Further configuration files layered over this one; processed by the
    /// loader, not by the core.
    pub includes: Vec<SingleInclude>,
}

/// One include pattern of the layered configuration.
pub struct SingleInclude {
    pub path: String,
}

/// One trusted signer, as an OpenSSH-format public-key line.
pub struct SingleTrustedKey {
    pub key: String,
}

/// One program to launch at startup.
pub struct SingleStartupProgram {
    pub wasi_file: String,
}

/// The host's own identity: a display name and the path of its private-key
/// file.
pub struct IdentityConfig {
    /// Human-readable host name, carried in signed identities.
    pub name: String,
    /// Path of the PEM private-key file.
    pub keyfile: String,
}

/// Whether a configuration pass may create missing key material.
#[derive(Clone, Copy, Debug, PartialEq, Eq, Structural)]
pub enum ConfigStyle {
    /// Generate a key pair where the configured file does not exist.
    CreateMissingKeys,
    /// Only report; never write key material.
    DoNotCreateMissingKeys,
}

} // verus!
