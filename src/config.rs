//! Fixed connection parameters of the backend and the retry policy.
use vstd::prelude::*;
use vstd::string::StringExecFns;

verus! {

/// Port the backend listens on.
pub const BACKEND_PORT: u16 = 4000;

/// Number of probes before giving up (two minutes at the default delay).
pub const MAX_RETRIES: u32 = 120;

/// Pause between two probes, in milliseconds.
pub const RETRY_DELAY_MS: u64 = 500;

/// Attempts below this number report that the server is starting.
pub const STARTING_BELOW: u32 = 10;

/// Attempts below this number (and not starting) report migrations.
pub const MIGRATING_BELOW: u32 = 30;

/// The character that stands for a decimal digit.
pub open spec fn digit_char(d: nat) -> char {
    if d == 0 { '0' }
    else if d == 1 { '1' }
    else if d == 2 { '2' }
    else if d == 3 { '3' }
    else if d == 4 { '4' }
    else if d == 5 { '5' }
    else if d == 6 { '6' }
    else if d == 7 { '7' }
    else if d == 8 { '8' }
    else { '9' }
}

/// Decimal notation of a natural number, without leading zeros.
pub open spec fn decimal(n: nat) -> Seq<char>
    decreases n,
{
    if n < 10 {
        seq![digit_char(n)]
    } else {
        decimal(n / 10).push(digit_char(n % 10))
    }
}

/// Relies on `ToString` for `u16` (through `Display`): plain decimal digits.
#[verifier::external_body]
pub(crate) fn port_text(port: u16) -> (r: String)
    ensures
        r@ == decimal(port as nat),
{
    port.to_string()
}

/// Where the backend can be reached: `http://localhost:{port}`.
#[derive(Clone, Copy, Debug, PartialEq, Eq, Structural)]
pub struct BackendConfig {
    pub port: u16,
}

impl BackendConfig {
    /// Base URL of the backend, as a character sequence.
    pub open spec fn base_url_spec(self) -> Seq<char> {
        "http://localhost:"@ + decimal(self.port as nat)
    }

    /// URL of the health endpoint.
    pub open spec fn health_url_spec(self) -> Seq<char> {
        self.base_url_spec() + "/api/health"@
    }

    /// The configuration the application ships with.
    pub fn standard() -> (r: BackendConfig)
        ensures
            r.port == BACKEND_PORT,
    {
        BackendConfig { port: BACKEND_PORT }
    }

    /// The URL the main view is pointed at.
    pub fn base_url(&self) -> (r: String)
        ensures
            r@ == self.base_url_spec(),
    {
        let mut url = String::from_str("http://localhost:");
        let digits = port_text(self.port);
        url.append(digits.as_str());
        url
    }

    /// The URL the readiness probe requests.
    pub fn health_url(&self) -> (r: String)
        ensures
            r@ == self.health_url_spec(),
    {
        let mut url = self.base_url();
        url.append("/api/health");
        url
    }
}

/// Thresholds of the three status bands shown while waiting.
#[derive(Clone, Copy, Debug, PartialEq, Eq, Structural)]
pub struct StatusBands {
    pub starting_below: u32,
    pub migrating_below: u32,
}

/// How often and how fast the backend is probed, and what is shown meanwhile.
#[derive(Clone, Copy, Debug, PartialEq, Eq, Structural)]
pub struct RetryPolicy {
    pub max_retries: u32,
    pub retry_delay_ms: u64,
    pub bands: StatusBands,
}

impl RetryPolicy {
    /// The policy the application ships with.
    pub fn standard() -> (r: RetryPolicy)
        ensures
            r.max_retries == MAX_RETRIES,
            r.retry_delay_ms == RETRY_DELAY_MS,
            r.bands.starting_below == STARTING_BELOW,
            r.bands.migrating_below == MIGRATING_BELOW,
    {
        RetryPolicy {
            max_retries: MAX_RETRIES,
            retry_delay_ms: RETRY_DELAY_MS,
            bands: StatusBands { starting_below: STARTING_BELOW, migrating_below: MIGRATING_BELOW },
        }
    }

    /// Worst-case total pause before giving up, in milliseconds.
    pub open spec fn worst_case_wait_ms(self) -> nat {
        (self.max_retries as nat) * (self.retry_delay_ms as nat)
    }
}

} // verus!
