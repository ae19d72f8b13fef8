//! The `getrawblockbyheight` handler.  The backend is asked first for the
//! hash of the block at the requested height, then for the raw block behind
//! that hash.  A height beyond the backend's known tip (RPC code "parameter
//! out of range") is not an error for the caller: the reply is
//! `{blockhash: null, block: null}`.  Any other backend error propagates.
//! The caller performs the two backend round trips and feeds each answer to
//! the step function below.

use vstd::prelude::*;
use crate::backend::AdapterError;
use crate::backend::BackendError;
use crate::backend::ValidationError;
use crate::backend::CODE_OUT_OF_RANGE;

verus! {

/// The reply of `getrawblockbyheight`: either both fields present or both
/// null.
#[derive(Clone, Debug, PartialEq, Eq)]
pub struct BlockReply {
    pub blockhash: Option<String>,
    pub block: Option<String>,
}

/// Validate the request: the `height` field must be present as a
/// non-negative integer.
pub fn parse_block_request(height: Option<u64>) -> (r: Result<u64, ValidationError>)
    ensures
        height matches Some(h) ==> r == Ok::<u64, ValidationError>(h),
        height is None ==> (r matches Err(v) && v is MissingHeight),
{
    match height {
        Some(h) => Ok(h),
        None => Err(ValidationError::MissingHeight),
    }
}

/// What resolving the block hash must yield, over views: `Ok(Some(hash))`
/// when the backend answered one, `Ok(None)` when the height lies beyond
/// its known tip, `Err(message)` for any other backend error.
pub open spec fn block_hash_translation(outcome: Result<String, BackendError>) -> Result<
    Option<Seq<char>>,
    Seq<char>,
> {
    match outcome {
        Ok(hash) => Ok(Some(hash@)),
        Err(e) => if e.is_rpc_code(CODE_OUT_OF_RANGE as int) {
            Ok(None)
        } else {
            Err(e.spec_message())
        },
    }
}

/// Translate the backend's answer to the hash lookup.  `Ok(Some(hash))`
/// calls for the second round trip; `Ok(None)` means the height is beyond
/// the tip and the reply is the absent one.
pub fn resolve_block_hash(outcome: Result<String, BackendError>) -> (r: Result<
    Option<String>,
    AdapterError,
>)
    ensures
        r matches Ok(Some(hash)) ==> block_hash_translation(outcome) == Ok::<_, Seq<char>>(
            Some(hash@),
        ),
        r matches Ok(o) ==> (o is None ==> block_hash_translation(outcome) == Ok::<_, Seq<char>>(
            None::<Seq<char>>,
        )),
        r matches Err(a) ==> block_hash_translation(outcome) == Err::<Option<Seq<char>>, _>(
            a.message@,
        ),
        outcome matches Ok(hash) ==> (r matches Ok(o) && o matches Some(h) && h@ == hash@),
        outcome matches Err(e) ==> (e.is_rpc_code(CODE_OUT_OF_RANGE as int) ==> (r matches Ok(o)
            && o is None)),
        outcome matches Err(e) ==> (!e.is_rpc_code(CODE_OUT_OF_RANGE as int) ==> (r matches Err(a)
            && a.message@ == e.spec_message())),
{
    match outcome {
        Ok(hash) => Ok(Some(hash)),
        Err(e) => {
            let out_of_range = match &e {
                BackendError::Rpc { code, message: _ } => *code == CODE_OUT_OF_RANGE,
                BackendError::Transport { message: _ } => false,
            };
            if out_of_range {
                Ok(None)
            } else {
                Err(crate::backend::adapter_failure(e))
            }
        },
    }
}

/// The absent reply, returned for a height beyond the backend's tip.
pub fn block_absent_reply() -> (r: BlockReply)
    ensures
        r.blockhash is None,
        r.block is None,
{
    BlockReply { blockhash: None, block: None }
}

/// Finish the fetch once the hash resolved: on success the reply carries
/// exactly the resolved hash and the raw block fetched for it; an error in
/// the second round trip propagates.
pub fn finish_block_fetch(blockhash: String, fetched: Result<String, BackendError>) -> (r: Result<
    BlockReply,
    AdapterError,
>)
    ensures
        fetched matches Ok(raw) ==> (r matches Ok(rep) && (rep.blockhash matches Some(h) && h@
            == blockhash@) && (rep.block matches Some(b) && b@ == raw@)),
        fetched matches Err(e) ==> (r matches Err(a) && a.message@ == e.spec_message()),
{
    match fetched {
        Ok(raw) => Ok(BlockReply { blockhash: Some(blockhash), block: Some(raw) }),
        Err(e) => Err(crate::backend::adapter_failure(e)),
    }
}

/// Law: for a height the backend reports as beyond its known tip, the hash
/// lookup translates to "absent", never to an error.
pub proof fn lemma_height_beyond_tip_is_absent(outcome: Result<String, BackendError>)
    requires
        outcome matches Err(e) && e.is_rpc_code(CODE_OUT_OF_RANGE as int),
    ensures
        block_hash_translation(outcome) == Ok::<_, Seq<char>>(None::<Seq<char>>),
{
}

/// Law: for a height the backend resolves, the translation keeps the very
/// hash the backend returned, so the finished reply pairs that hash with
/// the raw block fetched for it.
pub proof fn lemma_resolved_hash_is_kept(outcome: Result<String, BackendError>)
    requires
        outcome is Ok,
    ensures
        outcome matches Ok(hash) ==> block_hash_translation(outcome) == Ok::<_, Seq<char>>(
            Some(hash@),
        ),
{
}

} // verus!
