use bcli::backend::{adapter_failure, BackendError, ValidationError};
use bcli::block::{
    block_absent_reply, finish_block_fetch, parse_block_request, resolve_block_hash,
};
use bcli::broadcast::{broadcast_reply, parse_send_request};
use bcli::chain::{chain_info_reply, ChainInfo};
use bcli::utxo::{check_txid_hex, parse_utxo_request, utxo_reply, TxOutInfo, UtxoReply};

fn rpc(code: i64, message: &str) -> BackendError {
    BackendError::Rpc {
        code,
        message: message.to_string(),
    }
}

fn transport(message: &str) -> BackendError {
    BackendError::Transport {
        message: message.to_string(),
    }
}

#[test]
fn block_height_missing_is_rejected() {
    assert!(matches!(
        parse_block_request(None),
        Err(ValidationError::MissingHeight)
    ));
    assert_eq!(parse_block_request(Some(720000)), Ok(720000));
}

#[test]
fn block_height_beyond_tip_is_absent_not_error() {
    let r = resolve_block_hash(Err(rpc(-8, "Block height out of range")));
    assert!(matches!(r, Ok(None)));
    let reply = block_absent_reply();
    assert!(reply.blockhash.is_none());
    assert!(reply.block.is_none());
}

#[test]
fn block_in_range_keeps_backend_hash_and_hex() {
    let hash = "00000000000000000002a7c4c1e48d76c5a37902165a270156b7a8d72728a054";
    let r = resolve_block_hash(Ok(hash.to_string()));
    match r {
        Ok(Some(h)) => assert_eq!(h, hash),
        _ => panic!("hash lookup must resolve"),
    }
    let reply = finish_block_fetch(hash.to_string(), Ok("0100deadbeef".to_string()))
        .expect("block fetch must finish");
    assert_eq!(reply.blockhash.as_deref(), Some(hash));
    assert_eq!(reply.block.as_deref(), Some("0100deadbeef"));
}

#[test]
fn block_other_backend_error_propagates() {
    let r = resolve_block_hash(Err(transport("connection reset")));
    match r {
        Err(a) => assert_eq!(a.message, "connection reset"),
        _ => panic!("transport failure must propagate"),
    }
    let r = finish_block_fetch("aa".to_string(), Err(rpc(-1, "Block not found")));
    match r {
        Err(a) => assert_eq!(a.message, "Block not found"),
        _ => panic!("fetch failure must propagate"),
    }
}

#[test]
fn broadcast_accepted_and_rebroadcast_both_succeed() {
    let raw_tx_answers = [
        Ok(()),
        Err(rpc(-27, "Transaction already in block chain")),
    ];
    for answer in raw_tx_answers {
        let rep = broadcast_reply(answer).expect("broadcast must yield a reply");
        assert!(rep.success);
        assert_eq!(rep.errmsg, "");
    }
}

#[test]
fn broadcast_rejection_is_reply_with_message() {
    let rep = broadcast_reply(Err(rpc(-22, "TX decode failed")))
        .expect("a rejection is a reply, not a thrown failure");
    assert!(!rep.success);
    assert_eq!(rep.errmsg, "TX decode failed");
    assert!(!rep.errmsg.is_empty());
}

#[test]
fn broadcast_transport_failure_propagates() {
    let r = broadcast_reply(Err(transport("broken pipe")));
    match r {
        Err(a) => assert_eq!(a.message, "broken pipe"),
        _ => panic!("transport failure must propagate"),
    }
}

#[test]
fn broadcast_missing_tx_is_rejected() {
    assert!(matches!(
        parse_send_request(None),
        Err(ValidationError::MissingTx)
    ));
    assert_eq!(parse_send_request(Some("0100".to_string())), Ok("0100".to_string()));
}

#[test]
fn txid_hex_check() {
    let valid = "f4184fc596403b9d638783cf57adfe4c75c605f6356fbc91338530e9831e9e16";
    assert!(check_txid_hex(valid));
    assert!(check_txid_hex(
        "F4184FC596403B9D638783CF57ADFE4C75C605F6356FBC91338530E9831E9E16"
    ));
    assert!(!check_txid_hex("f4184fc5"));
    assert!(!check_txid_hex(
        "g4184fc596403b9d638783cf57adfe4c75c605f6356fbc91338530e9831e9e16"
    ));
    assert!(!check_txid_hex(""));
}

#[test]
fn utxo_request_validation() {
    let valid = "f4184fc596403b9d638783cf57adfe4c75c605f6356fbc91338530e9831e9e16";
    assert!(matches!(
        parse_utxo_request(None, Some(0)),
        Err(ValidationError::MissingTxidOrVout)
    ));
    assert!(matches!(
        parse_utxo_request(Some(valid.to_string()), None),
        Err(ValidationError::MissingTxidOrVout)
    ));
    assert!(matches!(
        parse_utxo_request(Some("zz".to_string()), Some(0)),
        Err(ValidationError::TxidNotHex)
    ));
    assert!(matches!(
        parse_utxo_request(Some(valid.to_string()), Some(1 << 40)),
        Err(ValidationError::VoutTooLarge)
    ));
    let q = parse_utxo_request(Some(valid.to_string()), Some(1)).expect("valid request");
    assert_eq!(q.txid, valid);
    assert_eq!(q.vout, 1);
}

#[test]
fn utxo_spent_or_nonexistent_is_empty() {
    let r = utxo_reply(Ok(None)).expect("not-found is not an error");
    assert!(matches!(r, UtxoReply::Empty));
}

#[test]
fn utxo_found_reports_amount_and_script() {
    let info = TxOutInfo {
        amount_sat: 5_000_000_000,
        script_hex: "76a914deadbeef88ac".to_string(),
    };
    let r = utxo_reply(Ok(Some(info))).expect("found output is a reply");
    match r {
        UtxoReply::Found { amount, script } => {
            assert_eq!(amount, 5_000_000_000);
            assert_eq!(script, "76a914deadbeef88ac");
        }
        UtxoReply::Empty => panic!("output must be reported"),
    }
}

#[test]
fn utxo_backend_error_propagates() {
    let r = utxo_reply(Err(rpc(-5, "Invalid address or key")));
    match r {
        Err(a) => assert_eq!(a.message, "Invalid address or key"),
        _ => panic!("backend failure must propagate"),
    }
}

#[test]
fn chain_info_fields_carry_over() {
    let rep = chain_info_reply(Ok(ChainInfo {
        chain: "main".to_string(),
        headers: 800123,
        blocks: 800120,
        ibd: false,
    }))
    .expect("chain info must translate");
    assert_eq!(rep.chain, "main");
    assert_eq!(rep.headercount, 800123);
    assert_eq!(rep.blockcount, 800120);
    assert!(!rep.ibd);
}

#[test]
fn chain_info_error_propagates() {
    let r = chain_info_reply(Err(transport("connection refused")));
    match r {
        Err(a) => assert_eq!(a.message, "connection refused"),
        _ => panic!("failure must propagate"),
    }
}

#[test]
fn adapter_failure_preserves_message() {
    assert_eq!(adapter_failure(rpc(-1, "some words")).message, "some words");
    assert_eq!(adapter_failure(transport("other words")).message, "other words");
}
