//! The `getchaininfo` handler: repackage the backend's chain-info answer
//! into the reply shape the node expects.  No backend error is specially
//! translated here; any failure propagates with its message.

use vstd::prelude::*;
use crate::backend::AdapterError;
use crate::backend::BackendError;

verus! {

/// What the backend's chain-info query reports, as plain values.
#[derive(Clone, Debug, PartialEq, Eq)]
pub struct ChainInfo {
    /// Chain identifier (for example "main", "test" or "regtest").
    pub chain: String,
    /// Header tip height.
    pub headers: u64,
    /// Validated-block tip height.
    pub blocks: u64,
    /// Whether initial block download is still in progress.
    pub ibd: bool,
}

/// The reply of `getchaininfo`.
#[derive(Clone, Debug, PartialEq, Eq)]
pub struct ChainInfoReply {
    pub chain: String,
    pub headercount: u64,
    pub blockcount: u64,
    pub ibd: bool,
}

/// Translate the backend's chain-info answer: on success every field is
/// carried over unchanged, on failure the backend's message propagates.
pub fn chain_info_reply(outcome: Result<ChainInfo, BackendError>) -> (r: Result<
    ChainInfoReply,
    AdapterError,
>)
    ensures
        outcome matches Ok(info) ==> (r matches Ok(rep) && rep.chain@ == info.chain@
            && rep.headercount == info.headers && rep.blockcount == info.blocks && rep.ibd
            == info.ibd),
        outcome matches Err(e) ==> (r matches Err(a) && a.message@ == e.spec_message()),
{
    match outcome {
        Ok(info) => Ok(
            ChainInfoReply {
                chain: info.chain,
                headercount: info.headers,
                blockcount: info.blocks,
                ibd: info.ibd,
            },
        ),
        Err(e) => Err(crate::backend::adapter_failure(e)),
    }
}

} // verus!
