//! Immutable description of what to poll: endpoints, payloads, timing and
//! the concurrency bound. Built once at startup and never mutated.

use vstd::prelude::*;

verus! {

/// One remote target. The bearer token, when present, is attached as an
/// Authorization credential on every request to this endpoint.
#[derive(Debug, Clone)]
pub struct Endpoint {
    pub url: String,
    pub bearer_token: Option<String>,
}

/// One request payload. `data == None` means a status probe (a GET to
/// `<url>/status`); `data == Some(body)` means a data call (a POST of that
/// JSON body text to `<url>`). `name` labels metrics only.
#[derive(Debug, Clone)]
pub struct Payload {
    pub name: String,
    pub data: Option<String>,
}

/// The whole service configuration. Valid configurations satisfy
/// [`RpcServiceConfig::wf`]: the concurrency bound and the period are both
/// at least one.
#[derive(Debug)]
pub struct RpcServiceConfig {
    pub timeout_ms: u64,
    pub period_ms: u64,
    pub concurrency: usize,
    pub endpoints: Vec<Endpoint>,
    pub payloads: Vec<Payload>,
}

/// Why a configuration was rejected at startup. Any of these is fatal: the
/// poller must not start on a partially valid configuration.
#[derive(Debug, Clone, PartialEq, Eq, Structural)]
pub enum ConfigError {
    ZeroConcurrency,
    ZeroPeriod,
}

impl RpcServiceConfig {
    /// A configuration the poller may run on.
    pub open spec fn wf(self) -> bool {
        &&& self.concurrency >= 1
        &&& self.period_ms >= 1
    }

    /// Number of tasks every tick issues: one per (endpoint, payload) pair.
    pub open spec fn spec_task_count(self) -> int {
        self.endpoints@.len() as int * self.payloads@.len() as int
    }

    /// Validating constructor: accepts exactly the configurations that are
    /// well formed, and rejects each invalid one with the reason, the
    /// concurrency bound being checked first.
    pub fn new(
        timeout_ms: u64,
        period_ms: u64,
        concurrency: usize,
        endpoints: Vec<Endpoint>,
        payloads: Vec<Payload>,
    ) -> (r: Result<Self, ConfigError>)
        ensures
            r is Ok <==> (concurrency >= 1 && period_ms >= 1),
            r matches Ok(c) ==> {
                &&& c.wf()
                &&& c.timeout_ms == timeout_ms
                &&& c.period_ms == period_ms
                &&& c.concurrency == concurrency
                &&& c.endpoints@ == endpoints@
                &&& c.payloads@ == payloads@
            },
            concurrency < 1 ==> r == Result::<Self, ConfigError>::Err(ConfigError::ZeroConcurrency),
            concurrency >= 1 && period_ms < 1 ==> r == Result::<Self, ConfigError>::Err(
                ConfigError::ZeroPeriod,
            ),
    {
        if concurrency < 1 {
            return Err(ConfigError::ZeroConcurrency);
        }
        if period_ms < 1 {
            return Err(ConfigError::ZeroPeriod);
        }
        Ok(RpcServiceConfig { timeout_ms, period_ms, concurrency, endpoints, payloads })
    }

    /// The per-tick task count as an executable value; `None` exactly when
    /// the product does not fit in `usize`.
    pub fn task_count(&self) -> (r: Option<usize>)
        ensures
            r matches Some(n) ==> n == self.spec_task_count(),
            r is None <==> self.spec_task_count() > usize::MAX,
    {
        self.endpoints.len().checked_mul(self.payloads.len())
    }
}

} // verus!
