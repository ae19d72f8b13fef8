//! Model of what the backend can answer: either an RPC-level error with a
//! numbered code and a message, or a transport-level failure that never
//! reached the backend's RPC layer.  The adapter's whole error taxonomy is
//! driven by three well-known codes.

use vstd::prelude::*;

verus! {

/// Code the backend uses for "parameter out of range" (a block height beyond
/// its known tip).
pub const CODE_OUT_OF_RANGE: i64 = -8;

/// Code the backend uses for "transaction already in chain or mempool".
pub const CODE_ALREADY_KNOWN: i64 = -27;

/// Code the backend uses while it is still starting up and cannot answer
/// most queries yet.
pub const CODE_WARMING_UP: i64 = 28;

/// A failed interaction with the backend, as seen by the adapter.
#[derive(Clone, Debug, PartialEq, Eq)]
pub enum BackendError {
    /// The backend's RPC layer answered with a numbered error.
    Rpc { code: i64, message: String },
    /// No RPC-level answer came back (connection refused, client failure).
    Transport { message: String },
}

impl BackendError {
    /// True of an RPC-level error carrying exactly the given code.
    pub open spec fn is_rpc_code(&self, code: int) -> bool {
        match *self {
            BackendError::Rpc { code: c, message: _ } => c == code,
            BackendError::Transport { message: _ } => false,
        }
    }

    /// The message carried by the error, whichever variant it is.
    pub open spec fn spec_message(&self) -> Seq<char> {
        match *self {
            BackendError::Rpc { code: _, message: m } => m@,
            BackendError::Transport { message: m } => m@,
        }
    }
}

/// A failure the adapter reports to its caller, carrying the backend's
/// message unchanged.
#[derive(Clone, Debug, PartialEq, Eq)]
pub struct AdapterError {
    pub message: String,
}

/// Turn a backend error into the failure surfaced to the caller, preserving
/// the message.
pub fn adapter_failure(e: BackendError) -> (r: AdapterError)
    ensures
        r.message@ == e.spec_message(),
{
    match e {
        BackendError::Rpc { code: _, message } => AdapterError { message },
        BackendError::Transport { message } => AdapterError { message },
    }
}

/// A malformed request, rejected before any backend contact.
#[derive(Clone, Copy, Debug, PartialEq, Eq)]
pub enum ValidationError {
    /// `getrawblockbyheight` without a usable `height` field.
    MissingHeight,
    /// `sendrawtransaction` without a usable `tx` field.
    MissingTx,
    /// `getutxout` without both a `txid` and a `vout` field.
    MissingTxidOrVout,
    /// `getutxout` with a `txid` that is not 64 hexadecimal digits.
    TxidNotHex,
    /// `getutxout` with a `vout` too large for a 32-bit output index.
    VoutTooLarge,
}

} // verus!
