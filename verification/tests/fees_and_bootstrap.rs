use bcli::backend::BackendError;
use bcli::bootstrap::{
    bootstrap_failure_message, classify_probe, cookie_credential, fallback_credential,
    run_bootstrap, BootstrapOutcome, BootstrapPolicy, Credential, ProbeVerdict,
};
use bcli::config::{u16_decimal, BackendConfig};
use bcli::fees::{
    compute_fee_schedule, estimate_fees, fee_or_default, fee_queries, EstimateMode, FeePolicy,
};
use bcli::handle::SharedHandle;

fn warmup() -> Result<(), BackendError> {
    Err(BackendError::Rpc {
        code: 28,
        message: "Loading block index...".to_string(),
    })
}

fn refused() -> Result<(), BackendError> {
    Err(BackendError::Transport {
        message: "Connection refused".to_string(),
    })
}

#[test]
fn fee_query_table() {
    let q = fee_queries();
    assert_eq!(q.len(), 4);
    assert_eq!(q[0].target, 2);
    assert_eq!(q[0].mode, EstimateMode::Conservative);
    assert_eq!(q[1].target, 6);
    assert_eq!(q[1].mode, EstimateMode::Economical);
    assert_eq!(q[2].target, 12);
    assert_eq!(q[2].mode, EstimateMode::Economical);
    assert_eq!(q[3].target, 100);
    assert_eq!(q[3].mode, EstimateMode::Economical);
}

#[test]
fn fee_default_substituted_per_leg() {
    assert_eq!(fee_or_default(None), 1000);
    assert_eq!(fee_or_default(Some(2500)), 2500);
    let policy = FeePolicy::standard();
    let rep = estimate_fees(Some(8000), None, Some(3000), None, &policy)
        .expect("schedule must be derived");
    assert_eq!(rep.htlc_resolution, 1000);
    assert_eq!(rep.mutual_close, 1000);
    assert_eq!(rep.opening, 3000);
    assert_eq!(rep.max_acceptable, 80000);
}

#[test]
fn fee_schedule_exact_values() {
    let policy = FeePolicy::standard();
    let rep = compute_fee_schedule(10000, 5000, 2000, 1001, &policy);
    assert_eq!(rep.opening, 2000);
    assert_eq!(rep.mutual_close, 1001);
    assert_eq!(rep.unilateral_close, 5000);
    assert_eq!(rep.delayed_to_us, 2000);
    assert_eq!(rep.htlc_resolution, 5000);
    assert_eq!(rep.penalty, 2000);
    assert_eq!(rep.min_acceptable, 500);
    assert_eq!(rep.max_acceptable, 100000);
}

#[test]
fn fee_schedule_all_defaults() {
    let policy = FeePolicy::standard();
    let rep = estimate_fees(None, None, None, None, &policy).expect("defaults fit");
    assert_eq!(rep.opening, 1000);
    assert_eq!(rep.mutual_close, 1000);
    assert_eq!(rep.unilateral_close, 1000);
    assert_eq!(rep.delayed_to_us, 1000);
    assert_eq!(rep.htlc_resolution, 1000);
    assert_eq!(rep.penalty, 1000);
    assert_eq!(rep.min_acceptable, 500);
    assert_eq!(rep.max_acceptable, 10000);
    assert!(rep.min_acceptable <= rep.opening && rep.opening <= rep.max_acceptable);
}

#[test]
fn fee_schedule_overflow_is_refused() {
    let policy = FeePolicy::standard();
    assert!(estimate_fees(Some(u64::MAX), None, None, None, &policy).is_none());
}

#[test]
fn probe_classification() {
    assert_eq!(classify_probe(&Ok(())), ProbeVerdict::Ready);
    assert_eq!(classify_probe(&warmup()), ProbeVerdict::WaitAndRetry);
    assert_eq!(classify_probe(&refused()), ProbeVerdict::Fatal);
    assert_eq!(
        classify_probe(&Err(BackendError::Rpc {
            code: -28,
            message: "wrong credentials".to_string(),
        })),
        ProbeVerdict::Fatal
    );
}

#[test]
fn bootstrap_waits_out_warmup_then_connects() {
    let probes = vec![warmup(), warmup(), warmup(), Ok(())];
    let (outcome, used) = run_bootstrap(&probes);
    assert_eq!(outcome, BootstrapOutcome::Connected);
    assert_eq!(used, 4);
}

#[test]
fn bootstrap_still_waiting_surfaces_nothing() {
    let probes = vec![warmup(), warmup(), warmup(), warmup(), warmup()];
    let (outcome, used) = run_bootstrap(&probes);
    assert_eq!(outcome, BootstrapOutcome::StillWaiting);
    assert_eq!(used, 5);
}

#[test]
fn bootstrap_unreachable_fails_fast() {
    let probes = vec![refused(), warmup(), Ok(())];
    let (outcome, used) = run_bootstrap(&probes);
    assert_eq!(outcome, BootstrapOutcome::Failed);
    assert_eq!(used, 1);
}

#[test]
fn bootstrap_failure_message_text() {
    assert_eq!(
        bootstrap_failure_message(),
        "Could not connect to bitcoind. Is bitcoind running?"
    );
}

#[test]
fn port_decimal_rendering() {
    assert_eq!(u16_decimal(0), "0");
    assert_eq!(u16_decimal(7), "7");
    assert_eq!(u16_decimal(8332), "8332");
    assert_eq!(u16_decimal(u16::MAX), "65535");
}

#[test]
fn bootstrap_policy_interval() {
    assert_eq!(BootstrapPolicy::standard().retry_interval_secs, 1);
}

#[test]
fn credentials_from_config() {
    let config = BackendConfig::new(
        "/home/user/.bitcoin/regtest".to_string(),
        "127.0.0.1".to_string(),
        18443,
        "user".to_string(),
        "password".to_string(),
    );
    assert_eq!(config.cookie_path(), "/home/user/.bitcoin/regtest/.cookie");
    assert_eq!(config.rpc_url(), "127.0.0.1:18443");
    assert_eq!(
        cookie_credential(&config),
        Credential::CookieFile("/home/user/.bitcoin/regtest/.cookie".to_string())
    );
    assert_eq!(
        fallback_credential(&config),
        Credential::UserPassword("user".to_string(), "password".to_string())
    );
}

#[test]
fn shared_handle_written_exactly_once() {
    let mut slot: SharedHandle<u32> = SharedHandle::new();
    assert!(!slot.is_populated());
    assert!(slot.get().is_none());
    assert!(slot.populate(7));
    assert!(slot.is_populated());
    assert_eq!(slot.get(), Some(&7));
    assert!(!slot.populate(9));
    assert_eq!(slot.get(), Some(&7));
}
