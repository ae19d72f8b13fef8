//! Connection bootstrap: produce one live backend client or fail fatally.
//! Cookie authentication is tried first and falls back to username/password
//! if the client cannot even be constructed.  Once a client exists, a
//! lightweight liveness probe is issued; while the backend reports it is
//! still warming up the probe is repeated after a fixed interval, without
//! any cap; any other failure is fatal at once.  The caller performs the
//! probes and drives the loop by the verdicts below.

use vstd::prelude::*;
use crate::backend::BackendError;
use crate::backend::CODE_WARMING_UP;
use crate::config::BackendConfig;

verus! {

/// Authentication material for constructing the backend client.
#[derive(Clone, Debug, PartialEq, Eq)]
pub enum Credential {
    /// Path of the cookie file the backend daemon writes.
    CookieFile(String),
    /// Static username and password.
    UserPassword(String, String),
}

/// The credential tried first: the cookie file under the data directory.
pub fn cookie_credential(config: &BackendConfig) -> (r: Credential)
    ensures
        r matches Credential::CookieFile(p) && p@ == config.data_dir@ + "/.cookie"@,
{
    Credential::CookieFile(config.cookie_path())
}

/// The credential tried when the cookie-based client cannot be constructed
/// at all; an error on this path is fatal.
pub fn fallback_credential(config: &BackendConfig) -> (r: Credential)
    ensures
        r matches Credential::UserPassword(u, w) && u@ == config.user@ && w@
            == config.password@,
{
    Credential::UserPassword(config.user.clone(), config.password.clone())
}

/// How the bootstrap retry is paced.  Stated as configuration so a test can
/// drive the loop without real waiting.
#[derive(Clone, Copy, Debug, PartialEq, Eq)]
pub struct BootstrapPolicy {
    /// Seconds to wait between liveness probes while the backend warms up.
    pub retry_interval_secs: u64,
}

impl BootstrapPolicy {
    /// The standard pacing: one probe per second.
    pub fn standard() -> (r: BootstrapPolicy)
        ensures
            r.retry_interval_secs == 1,
    {
        BootstrapPolicy { retry_interval_secs: 1 }
    }
}

/// A probe answer that means "still warming up": the one condition that is
/// retried.
pub open spec fn is_warmup(outcome: Result<(), BackendError>) -> bool {
    match outcome {
        Ok(_) => false,
        Err(e) => e.is_rpc_code(CODE_WARMING_UP as int),
    }
}

/// A probe answer that ends the bootstrap with a fatal error: any failure
/// that is not warm-up.
pub open spec fn is_fatal(outcome: Result<(), BackendError>) -> bool {
    outcome is Err && !is_warmup(outcome)
}

/// What the bootstrap loop must do after one liveness probe.
#[derive(Clone, Copy, Debug, PartialEq, Eq)]
pub enum ProbeVerdict {
    /// The backend answered: bootstrap is complete.
    Ready,
    /// The backend is still warming up: wait the interval, probe again.
    WaitAndRetry,
    /// Unreachable or misconfigured: fail at once, no retry.
    Fatal,
}

/// Classify one probe answer.
pub fn classify_probe(outcome: &Result<(), BackendError>) -> (r: ProbeVerdict)
    ensures
        r is Ready <==> outcome is Ok,
        r is WaitAndRetry <==> is_warmup(*outcome),
        r is Fatal <==> is_fatal(*outcome),
{
    match outcome {
        Ok(_) => ProbeVerdict::Ready,
        Err(e) => {
            let warmup = match e {
                BackendError::Rpc { code, message: _ } => *code == CODE_WARMING_UP,
                BackendError::Transport { message: _ } => false,
            };
            if warmup {
                ProbeVerdict::WaitAndRetry
            } else {
                ProbeVerdict::Fatal
            }
        },
    }
}

/// The fatal message surfaced when the backend is unreachable or
/// misconfigured.
pub fn bootstrap_failure_message() -> (r: String)
    ensures
        r@ == "Could not connect to bitcoind. Is bitcoind running?"@,
{
    "Could not connect to bitcoind. Is bitcoind running?".to_owned()
}

/// How a bootstrap run ends.
#[derive(Clone, Copy, Debug, PartialEq, Eq)]
pub enum BootstrapOutcome {
    /// A probe succeeded: the client is live.
    Connected,
    /// A probe failed other than with warm-up: fatal, at once.
    Failed,
    /// Every answer seen so far was warm-up: still waiting, nothing
    /// surfaced.
    StillWaiting,
}

/// How bootstrap ends on a given sequence of successive probe answers: the
/// first answer that is not warm-up decides, warm-up answers before it are
/// waited out, and a sequence of nothing but warm-up decides nothing.
pub open spec fn bootstrap_model(s: Seq<Result<(), BackendError>>) -> BootstrapOutcome
    decreases s.len(),
{
    if s.len() == 0 {
        BootstrapOutcome::StillWaiting
    } else if is_warmup(s[0]) {
        bootstrap_model(s.drop_first())
    } else if s[0] is Ok {
        BootstrapOutcome::Connected
    } else {
        BootstrapOutcome::Failed
    }
}

/// How many probes a bootstrap run consumes on that sequence: every
/// warm-up answer before the deciding one, and the deciding one itself.
pub open spec fn probes_consumed(s: Seq<Result<(), BackendError>>) -> int
    decreases s.len(),
{
    if s.len() == 0 {
        0
    } else if is_warmup(s[0]) {
        1 + probes_consumed(s.drop_first())
    } else {
        1
    }
}

/// Run the bootstrap decision loop against a recorded sequence of probe
/// answers, as a fake backend would supply it: the injectable form of the
/// retry loop, with the waiting stripped.  Returns how the run ends and
/// how many answers it consumed.
pub fn run_bootstrap(probes: &Vec<Result<(), BackendError>>) -> (r: (BootstrapOutcome, usize))
    ensures
        r.0 == bootstrap_model(probes@),
        r.1 == probes_consumed(probes@),
{
    let n = probes.len();
    proof {
        assert(probes@.skip(0) =~= probes@);
    }
    let mut i: usize = 0;
    while i < n
        invariant
            i <= n,
            n == probes@.len(),
            bootstrap_model(probes@) == bootstrap_model(probes@.skip(i as int)),
            probes_consumed(probes@) == i + probes_consumed(probes@.skip(i as int)),
        decreases n - i,
    {
        let verdict = classify_probe(&probes[i]);
        proof {
            assert(probes@.skip(i as int)[0] == probes@[i as int]);
            assert(probes@.skip(i as int).drop_first() =~= probes@.skip(i as int + 1));
        }
        match verdict {
            ProbeVerdict::Ready => {
                return (BootstrapOutcome::Connected, i + 1);
            },
            ProbeVerdict::Fatal => {
                return (BootstrapOutcome::Failed, i + 1);
            },
            ProbeVerdict::WaitAndRetry => {
                i += 1;
            },
        }
    }
    (BootstrapOutcome::StillWaiting, n)
}

/// Law: a backend that reports warm-up some number of times and then
/// answers normally is waited out -- bootstrap connects, consuming exactly
/// the warm-up answers and the successful one, and surfaces no error on
/// the way.
pub proof fn lemma_warmup_waited_out(s: Seq<Result<(), BackendError>>, k: int)
    requires
        0 <= k < s.len(),
        forall|i: int| 0 <= i < k ==> is_warmup(s[i]),
        s[k] is Ok,
    ensures
        bootstrap_model(s) == BootstrapOutcome::Connected,
        probes_consumed(s) == k + 1,
    decreases k,
{
    if k == 0 {
    } else {
        assert(is_warmup(s[0]));
        assert forall|i: int| 0 <= i < k - 1 implies is_warmup(s.drop_first()[i]) by {
            assert(s.drop_first()[i] == s[i + 1]);
        }
        assert(s.drop_first()[k - 1] == s[k]);
        lemma_warmup_waited_out(s.drop_first(), k - 1);
    }
}

/// Law: while the backend reports nothing but warm-up, bootstrap decides
/// nothing and surfaces nothing -- it is still waiting after any number of
/// such answers.
pub proof fn lemma_warmup_surfaces_nothing(s: Seq<Result<(), BackendError>>)
    requires
        forall|i: int| 0 <= i < s.len() ==> is_warmup(s[i]),
    ensures
        bootstrap_model(s) == BootstrapOutcome::StillWaiting,
        probes_consumed(s) == s.len(),
    decreases s.len(),
{
    if s.len() == 0 {
    } else {
        assert(is_warmup(s[0]));
        assert forall|i: int| 0 <= i < s.drop_first().len() implies is_warmup(
            s.drop_first()[i],
        ) by {
            assert(s.drop_first()[i] == s[i + 1]);
        }
        lemma_warmup_surfaces_nothing(s.drop_first());
    }
}

/// Law: a backend that is simply unreachable -- the first answer is a
/// failure and not warm-up -- fails the bootstrap at once, after that one
/// probe, with no retry.
pub proof fn lemma_unreachable_fails_fast(s: Seq<Result<(), BackendError>>)
    requires
        s.len() >= 1,
        is_fatal(s[0]),
    ensures
        bootstrap_model(s) == BootstrapOutcome::Failed,
        probes_consumed(s) == 1,
{
}

} // verus!
