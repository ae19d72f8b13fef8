//! The `getutxout` handler: look up the output at `(txid, vout)`, mempool
//! included.  The request must carry both fields; the txid must be 64
//! hexadecimal digits and the vout must fit a 32-bit output index.  An
//! output the backend does not know (spent or nonexistent) yields the empty
//! reply; a found output yields its value in satoshis and its hex-encoded
//! locking script; any backend error propagates.

use vstd::prelude::*;
use crate::backend::AdapterError;
use crate::backend::BackendError;
use crate::backend::ValidationError;

verus! {

/// A hexadecimal digit: `0`-`9`, `a`-`f` or `A`-`F` (code points 48-57,
/// 97-102 and 65-70).
pub open spec fn is_hex_digit(c: char) -> bool {
    (48 <= c as u32 && c as u32 <= 57) || (97 <= c as u32 && c as u32 <= 102) || (65 <= c as u32
        && c as u32 <= 70)
}

/// A well-formed transaction id: exactly 64 hexadecimal digits.
pub open spec fn is_txid_hex(s: Seq<char>) -> bool {
    s.len() == 64 && (forall|i: int| 0 <= i < s.len() ==> is_hex_digit(s[i]))
}

/// Check that a string is a well-formed transaction id.
pub fn check_txid_hex(s: &str) -> (r: bool)
    ensures
        r == is_txid_hex(s@),
{
    let n = s.unicode_len();
    if n != 64 {
        return false;
    }
    let mut i: usize = 0;
    while i < 64
        invariant
            s@.len() == 64,
            i <= 64,
            forall|j: int| 0 <= j < i ==> is_hex_digit(s@[j]),
        decreases 64 - i,
    {
        let c = s.get_char(i);
        let u = c as u32;
        let ok = (48 <= u && u <= 57) || (97 <= u && u <= 102) || (65 <= u && u <= 70);
        if !ok {
            return false;
        }
        i += 1;
    }
    true
}

/// A validated `getutxout` request.
#[derive(Clone, Debug, PartialEq, Eq)]
pub struct UtxoRequest {
    /// 64 hexadecimal digits.
    pub txid: String,
    /// Output index within the transaction.
    pub vout: u32,
}

/// Validate the request: both fields present, the txid well-formed, the
/// vout within the 32-bit range.
pub fn parse_utxo_request(txid: Option<String>, vout: Option<u64>) -> (r: Result<
    UtxoRequest,
    ValidationError,
>)
    ensures
        txid is None || vout is None ==> (r matches Err(v) && v is MissingTxidOrVout),
        txid matches Some(t) ==> (vout matches Some(v) ==> ({
            if !is_txid_hex(t@) {
                r matches Err(v) && v is TxidNotHex
            } else if v > u32::MAX as u64 {
                r matches Err(v) && v is VoutTooLarge
            } else {
                r matches Ok(q) && q.txid@ == t@ && q.vout == v
            }
        })),
{
    match (txid, vout) {
        (Some(t), Some(v)) => {
            if !check_txid_hex(t.as_str()) {
                Err(ValidationError::TxidNotHex)
            } else if v > u32::MAX as u64 {
                Err(ValidationError::VoutTooLarge)
            } else {
                Ok(UtxoRequest { txid: t, vout: v as u32 })
            }
        },
        _ => Err(ValidationError::MissingTxidOrVout),
    }
}

/// A found output, as plain values: its value in satoshis and its
/// hex-encoded locking script.
#[derive(Clone, Debug, PartialEq, Eq)]
pub struct TxOutInfo {
    pub amount_sat: u64,
    pub script_hex: String,
}

/// The reply of `getutxout`: empty for a spent or nonexistent output.
#[derive(Clone, Debug, PartialEq, Eq)]
pub enum UtxoReply {
    Empty,
    Found { amount: u64, script: String },
}

/// Translate the backend's answer to the output lookup.
pub fn utxo_reply(outcome: Result<Option<TxOutInfo>, BackendError>) -> (r: Result<
    UtxoReply,
    AdapterError,
>)
    ensures
        outcome matches Ok(found) ==> (found matches Some(info) ==> (r matches Ok(rep) && (
        rep matches UtxoReply::Found { amount, script } && amount == info.amount_sat && script@
            == info.script_hex@))),
        outcome matches Ok(found) ==> (found is None ==> (r matches Ok(rep) && rep is Empty)),
        outcome matches Err(e) ==> (r matches Err(a) && a.message@ == e.spec_message()),
{
    match outcome {
        Ok(Some(info)) => Ok(
            UtxoReply::Found { amount: info.amount_sat, script: info.script_hex },
        ),
        Ok(None) => Ok(UtxoReply::Empty),
        Err(e) => Err(crate::backend::adapter_failure(e)),
    }
}

} // verus!
