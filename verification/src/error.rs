//! The ways in which a wallet operation and a call of the worker fail.
use vstd::prelude::*;

verus! {

/// Why a wallet operation failed.
#[derive(Debug, Clone, Copy, PartialEq, Eq, Structural)]
pub enum WalletError {
    /// The key-derivation primitive rejected the salt or the PIN.
    KeyDerivation,
    /// The ciphertext did not authenticate: a wrong PIN or altered data.
    /// The two are deliberately not told apart.
    Authentication,
    /// Data that should hold a record or an envelope does not.
    Format,
    /// The cipher refused the plaintext: it is longer than 2^36 bytes.
    Encryption,
}

/// Why a call to the worker failed.
#[derive(Debug, Clone, PartialEq, Eq)]
pub enum CallError {
    /// The worker process could not be started.
    Spawn,
    /// The exchange with the worker broke down: a line that is not a
    /// response, or a stream that could not be written or read.
    Protocol,
    /// The worker closed its output without answering.
    NoResponse,
    /// The worker answered with an error of its own, carried as it came.
    Sidecar { code: i32, message: String },
}

/// A `CallError` as plain values.
pub enum Fault {
    Spawn,
    Protocol,
    NoResponse,
    Sidecar { code: i32, message: Seq<char> },
}

impl View for CallError {
    type V = Fault;

    open spec fn view(&self) -> Fault {
        match self {
            CallError::Spawn => Fault::Spawn,
            CallError::Protocol => Fault::Protocol,
            CallError::NoResponse => Fault::NoResponse,
            CallError::Sidecar { code, message } => Fault::Sidecar {
                code: *code,
                message: message@,
            },
        }
    }
}

} // verus!
