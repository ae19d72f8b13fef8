//! The `sendrawtransaction` handler: submit a raw transaction and report a
//! business outcome, never a thrown failure, for anything the backend's RPC
//! layer answered.  Acceptance and "already in chain or mempool" (the
//! idempotent rebroadcast) are success; any other RPC rejection is
//! `{success: false}` with the backend's message; only a transport-level
//! failure propagates as an adapter failure.

use vstd::prelude::*;
use crate::backend::AdapterError;
use crate::backend::BackendError;
use crate::backend::ValidationError;
use crate::backend::CODE_ALREADY_KNOWN;

verus! {

/// The reply of `sendrawtransaction`.
#[derive(Clone, Debug, PartialEq, Eq)]
pub struct SendReply {
    pub success: bool,
    pub errmsg: String,
}

/// Validate the request: the `tx` field must be present.
pub fn parse_send_request(tx: Option<String>) -> (r: Result<String, ValidationError>)
    ensures
        tx matches Some(t) ==> (r matches Ok(s) && s@ == t@),
        tx is None ==> (r matches Err(v) && v is MissingTx),
{
    match tx {
        Some(t) => Ok(t),
        None => Err(ValidationError::MissingTx),
    }
}

/// What the broadcast reply must be, over views: `Ok((success, errmsg))`
/// for a business outcome, `Err(message)` for a propagated failure.
pub open spec fn broadcast_translation(outcome: Result<(), BackendError>) -> Result<
    (bool, Seq<char>),
    Seq<char>,
> {
    match outcome {
        Ok(_) => Ok((true, Seq::<char>::empty())),
        Err(e) => match e {
            BackendError::Rpc { code, message } => if code == CODE_ALREADY_KNOWN {
                Ok((true, Seq::<char>::empty()))
            } else {
                Ok((false, message@))
            },
            BackendError::Transport { message } => Err(message@),
        },
    }
}

/// Translate the backend's answer to a broadcast.
pub fn broadcast_reply(outcome: Result<(), BackendError>) -> (r: Result<SendReply, AdapterError>)
    ensures
        r matches Ok(rep) ==> broadcast_translation(outcome) == Ok::<_, Seq<char>>(
            (rep.success, rep.errmsg@),
        ),
        r matches Err(a) ==> broadcast_translation(outcome) == Err::<(bool, Seq<char>), _>(
            a.message@,
        ),
        outcome is Ok ==> (r matches Ok(rep) && rep.success && rep.errmsg@
            == Seq::<char>::empty()),
        outcome matches Err(e) ==> (e.is_rpc_code(CODE_ALREADY_KNOWN as int) ==> (r matches Ok(
            rep,
        ) && rep.success && rep.errmsg@ == Seq::<char>::empty())),
        outcome matches Err(BackendError::Rpc { code, message }) ==> (code != CODE_ALREADY_KNOWN
            ==> (r matches Ok(rep) && !rep.success && rep.errmsg@ == message@)),
        outcome matches Err(BackendError::Transport { message }) ==> (r matches Err(a)
            && a.message@ == message@),
{
    match outcome {
        Ok(_) => Ok(SendReply { success: true, errmsg: String::new() }),
        Err(BackendError::Rpc { code, message }) => {
            if code == CODE_ALREADY_KNOWN {
                Ok(SendReply { success: true, errmsg: String::new() })
            } else {
                Ok(SendReply { success: false, errmsg: message })
            }
        },
        Err(BackendError::Transport { message }) => Err(AdapterError { message }),
    }
}

/// Law: broadcasting the same valid transaction twice succeeds both times.
/// The backend accepts the first copy and reports "already known" for the
/// second; both answers translate to `{success: true, errmsg: ""}`.
pub proof fn lemma_broadcast_idempotent(first: Result<(), BackendError>, second: Result<
    (),
    BackendError,
>)
    requires
        first is Ok,
        second matches Err(e) && e.is_rpc_code(CODE_ALREADY_KNOWN as int),
    ensures
        broadcast_translation(first) == Ok::<_, Seq<char>>((true, Seq::<char>::empty())),
        broadcast_translation(second) == Ok::<_, Seq<char>>((true, Seq::<char>::empty())),
{
}

/// Law: a transaction the backend's RPC layer rejects with any code other
/// than "already known" yields the reply `{success: false, errmsg: <the
/// backend's message>}` -- a normal business outcome, not a thrown failure.
pub proof fn lemma_broadcast_rejection_is_reply(code: i64, message: String)
    requires
        code != CODE_ALREADY_KNOWN,
    ensures
        broadcast_translation(Err(BackendError::Rpc { code, message })) == Ok::<_, Seq<char>>(
            (false, message@),
        ),
{
}

} // verus!
