//! Immutable bundle of the material needed to reach the backend: data
//! directory, host, port and static credentials.  Built once from
//! already-validated configuration input, read by the bootstrap.

use vstd::prelude::*;

verus! {

/// The character for one decimal digit.
pub open spec fn decimal_digit(d: int) -> char {
    if d == 0 {
        '0'
    } else if d == 1 {
        '1'
    } else if d == 2 {
        '2'
    } else if d == 3 {
        '3'
    } else if d == 4 {
        '4'
    } else if d == 5 {
        '5'
    } else if d == 6 {
        '6'
    } else if d == 7 {
        '7'
    } else if d == 8 {
        '8'
    } else {
        '9'
    }
}

/// The decimal rendering of a non-negative number, most significant digit
/// first, without leading zeroes (a single zero for zero itself).
pub open spec fn decimal_rep(n: int) -> Seq<char>
    decreases n,
{
    if n < 10 {
        seq![decimal_digit(n)]
    } else {
        decimal_rep(n / 10).push(decimal_digit(n % 10))
    }
}

/// One decimal digit as a string.
fn digit_str(d: u16) -> (r: &'static str)
    requires
        d < 10,
    ensures
        r@ == seq![decimal_digit(d as int)],
{
    proof {
        reveal_strlit("0");
        reveal_strlit("1");
        reveal_strlit("2");
        reveal_strlit("3");
        reveal_strlit("4");
        reveal_strlit("5");
        reveal_strlit("6");
        reveal_strlit("7");
        reveal_strlit("8");
        reveal_strlit("9");
    }
    match d {
        0 => "0",
        1 => "1",
        2 => "2",
        3 => "3",
        4 => "4",
        5 => "5",
        6 => "6",
        7 => "7",
        8 => "8",
        _ => "9",
    }
}

/// Render a port number in decimal.
pub fn u16_decimal(n: u16) -> (r: String)
    ensures
        r@ == decimal_rep(n as int),
    decreases n,
{
    if n < 10 {
        digit_str(n).to_owned()
    } else {
        let prefix = u16_decimal(n / 10);
        let r = prefix.concat(digit_str(n % 10));
        proof {
            assert(decimal_rep(n as int) =~= decimal_rep(n as int / 10) + seq![
                decimal_digit(n as int % 10),
            ]);
        }
        r
    }
}

/// Connection material for the backend, immutable after construction.
#[derive(Clone, Debug, PartialEq, Eq)]
pub struct BackendConfig {
    /// The backend's data directory, where it writes its cookie file.
    pub data_dir: String,
    /// Host the backend's RPC server listens on.
    pub host: String,
    /// Port the backend's RPC server listens on.
    pub port: u16,
    /// Static RPC username, used only when cookie authentication cannot be
    /// constructed.
    pub user: String,
    /// Static RPC password, paired with the username.
    pub password: String,
}

impl BackendConfig {
    /// Bundle the validated configuration values.
    pub fn new(data_dir: String, host: String, port: u16, user: String, password: String) -> (r:
        BackendConfig)
        ensures
            r.data_dir@ == data_dir@,
            r.host@ == host@,
            r.port == port,
            r.user@ == user@,
            r.password@ == password@,
    {
        BackendConfig { data_dir, host, port, user, password }
    }

    /// The cookie file the backend daemon writes, at `<data_dir>/.cookie`.
    pub fn cookie_path(&self) -> (r: String)
        ensures
            r@ == self.data_dir@ + "/.cookie"@,
    {
        let p = self.data_dir.clone();
        p.concat("/.cookie")
    }

    /// The URL the RPC client is pointed at: `<host>:<port>`, the port in
    /// decimal.
    pub fn rpc_url(&self) -> (r: String)
        ensures
            r@ == self.host@ + ":"@ + decimal_rep(self.port as int),
    {
        let mut url = self.host.clone();
        url.append(":");
        let port = u16_decimal(self.port);
        url.append(port.as_str());
        url
    }
}

} // verus!
