//! Injected failures and delays. They are switched on by a control request, which only a test
//! deployment accepts; otherwise the mode stays [`ChaosMode::Normal`].

use crate::config::{EnvText, EnvValue, Environment};
use crate::fake_charge::error::{ApiError, ApiFault};
use crate::text::same_text;
use vstd::prelude::*;

verus! {

#[derive(Debug, Clone, Copy, PartialEq, Eq, Structural)]
pub enum ChaosMode {
    Normal,
    /// The next requests fail with this status.
    FailNext { remaining: u32, status: u16 },
    PermanentReject,
    /// Every request waits this long, until the mode is set again.
    DelayMs(u64),
}

/// What becomes of a request.
#[derive(Debug, Clone, Copy, PartialEq, Eq, Structural)]
pub enum ChaosDecision {
    Proceed,
    /// The request is answered with this status and goes no further.
    Reject(u16),
}

impl ChaosMode {
    /// What becomes of the next request.
    pub open spec fn decision(self) -> ChaosDecision {
        match self {
            ChaosMode::Normal | ChaosMode::DelayMs(_) => ChaosDecision::Proceed,
            ChaosMode::PermanentReject => ChaosDecision::Reject(422),
            ChaosMode::FailNext { status, .. } => ChaosDecision::Reject(failure_status(status)),
        }
    }

    /// The mode after the next request.
    pub open spec fn after_one(self) -> ChaosMode {
        match self {
            ChaosMode::FailNext { remaining, status } => if remaining <= 1 {
                ChaosMode::Normal
            } else {
                ChaosMode::FailNext { remaining: (remaining - 1) as u32, status }
            },
            _ => self,
        }
    }

    /// The mode after `n` requests.
    pub open spec fn after(self, n: nat) -> ChaosMode
        decreases n,
    {
        if n == 0 {
            self
        } else {
            self.after_one().after((n - 1) as nat)
        }
    }
}

/// The status that a request to fail is answered with: the one asked for, or 503 if that is no status.
pub open spec fn failure_status(status: u16) -> u16 {
    if 100 <= status <= 999 {
        status
    } else {
        503
    }
}

/// After a request for `n` failures, exactly the next `n` requests fail, with the status asked for.
pub proof fn law_exactly_n_requests_fail(n: u32, status: u16, k: nat)
    requires
        n >= 1,
    ensures
        k < n ==> (ChaosMode::FailNext { remaining: n, status }).after(k).decision()
            == ChaosDecision::Reject(failure_status(status)),
        k >= n ==> (ChaosMode::FailNext { remaining: n, status }).after(k).decision()
            == ChaosDecision::Proceed,
    decreases k,
{
    let mode = ChaosMode::FailNext { remaining: n, status };
    if k > 0 {
        if n == 1 {
            law_normal_mode_lasts((k - 1) as nat);
        } else {
            law_exactly_n_requests_fail((n - 1) as u32, status, (k - 1) as nat);
        }
    }
}

/// Without a control request nothing fails.
pub proof fn law_normal_mode_lasts(k: nat)
    ensures
        ChaosMode::Normal.after(k) == ChaosMode::Normal,
        ChaosMode::Normal.after(k).decision() is Proceed,
    decreases k,
{
    if k > 0 {
        law_normal_mode_lasts((k - 1) as nat);
    }
}

/// The mode, and how many requests are in progress.
#[derive(Debug)]
pub struct ChaosState {
    pub mode: ChaosMode,
    pub inflight: usize,
    /// The most requests that were in progress at once since the last reset.
    pub peak_inflight: usize,
}

/// A request in progress.
#[derive(Debug)]
pub struct InflightGuard {
    _open: (),
}

impl ChaosState {
    /// The state with one request more in progress.
    pub open spec fn started(self) -> ChaosState {
        let inflight = (self.inflight + 1) as usize;
        ChaosState {
            inflight,
            peak_inflight: if inflight > self.peak_inflight {
                inflight
            } else {
                self.peak_inflight
            },
            ..self
        }
    }

    /// The state with one request less in progress.
    pub open spec fn ended(self) -> ChaosState {
        ChaosState { inflight: (self.inflight - 1) as usize, ..self }
    }

    /// Normal operation, with no request in progress.
    pub fn new() -> (s: ChaosState)
        ensures
            s == (ChaosState { mode: ChaosMode::Normal, inflight: 0, peak_inflight: 0 }),
    {
        ChaosState { mode: ChaosMode::Normal, inflight: 0, peak_inflight: 0 }
    }

    /// How long a request has to wait, in milliseconds, before it is decided about.
    pub fn delay_ms(&self) -> (ms: Option<u64>)
        ensures
            ms == match self.mode {
                ChaosMode::DelayMs(ms) => Some(ms),
                _ => None,
            },
    {
        match self.mode {
            ChaosMode::DelayMs(ms) => Some(ms),
            _ => None,
        }
    }

    /// Decides about a request, and uses up one injected failure if there is any.
    pub fn decide(&mut self) -> (d: ChaosDecision)
        ensures
            d == old(self).mode.decision(),
            *final(self) == (ChaosState { mode: old(self).mode.after_one(), ..*old(self) }),
    {
        match self.mode {
            ChaosMode::Normal | ChaosMode::DelayMs(_) => ChaosDecision::Proceed,
            ChaosMode::PermanentReject => ChaosDecision::Reject(422),
            ChaosMode::FailNext { remaining, status } => {
                self.mode = if remaining <= 1 {
                    ChaosMode::Normal
                } else {
                    ChaosMode::FailNext { remaining: remaining - 1, status }
                };
                if status >= 100 && status <= 999 {
                    ChaosDecision::Reject(status)
                } else {
                    ChaosDecision::Reject(503)
                }
            },
        }
    }

    pub fn set(&mut self, mode: ChaosMode)
        ensures
            *final(self) == (ChaosState { mode, ..*old(self) }),
    {
        self.mode = mode;
    }

    /// Marks the start of a request. [`ChaosState::release`] marks its end.
    pub fn track_inflight(&mut self) -> (guard: InflightGuard)
        requires
            old(self).inflight < usize::MAX,
        ensures
            *final(self) == old(self).started(),
    {
        self.inflight = self.inflight + 1;
        if self.inflight > self.peak_inflight {
            self.peak_inflight = self.inflight;
        }
        InflightGuard { _open: () }
    }

    /// Marks the end of a request.
    pub fn release(&mut self, _guard: InflightGuard)
        requires
            old(self).inflight > 0,
        ensures
            *final(self) == old(self).ended(),
    {
        self.inflight = self.inflight - 1;
    }

    pub fn peak_inflight(&self) -> (n: usize)
        ensures
            n == self.peak_inflight,
    {
        self.peak_inflight
    }

    pub fn reset_peak_inflight(&mut self)
        ensures
            *final(self) == (ChaosState { peak_inflight: 0, ..*old(self) }),
    {
        self.peak_inflight = 0;
    }
}

impl Default for ChaosState {
    fn default() -> (s: ChaosState)
        ensures
            s == (ChaosState { mode: ChaosMode::Normal, inflight: 0, peak_inflight: 0 }),
    {
        ChaosState::new()
    }
}

/// Until the peak is reset, it covers the number of requests in progress: neither the start nor the
/// end of a request changes that.
pub proof fn law_peak_covers_inflight(state: ChaosState)
    requires
        state.peak_inflight >= state.inflight,
    ensures
        state.inflight < usize::MAX ==> {
            &&& state.started().peak_inflight >= state.started().inflight
            &&& state.started().peak_inflight >= state.peak_inflight
        },
        state.inflight > 0 ==> {
            &&& state.ended().peak_inflight >= state.ended().inflight
            &&& state.ended().peak_inflight == state.peak_inflight
        },
{
}

/// A request to change the mode.
#[derive(Debug, Clone, Copy)]
pub enum ControlRequest {
    Normal,
    FailNext { n: u32, status: u16 },
    PermanentReject,
    DelayMs { ms: u64 },
}

/// `POST /v1/test/control`: changes the mode. A request for no failures at all is refused.
pub fn set_control(state: &mut ChaosState, body: ControlRequest) -> (r: Result<(), ApiError>)
    ensures
        match body {
            ControlRequest::FailNext { n, status } => if n == 0 {
                &&& r matches Err(e) && e@ == ApiFault::invalid_argument("n must be at least 1"@)
                &&& *final(state) == *old(state)
            } else {
                &&& r is Ok
                &&& *final(state) == (ChaosState {
                    mode: ChaosMode::FailNext { remaining: n, status },
                    ..*old(state)
                })
            },
            ControlRequest::Normal => r is Ok && *final(state) == (ChaosState {
                mode: ChaosMode::Normal,
                ..*old(state)
            }),
            ControlRequest::PermanentReject => r is Ok && *final(state) == (ChaosState {
                mode: ChaosMode::PermanentReject,
                ..*old(state)
            }),
            ControlRequest::DelayMs { ms } => r is Ok && *final(state) == (ChaosState {
                mode: ChaosMode::DelayMs(ms),
                ..*old(state)
            }),
        },
{
    let mode = match body {
        ControlRequest::Normal => ChaosMode::Normal,
        ControlRequest::FailNext { n, status } => {
            if n == 0 {
                return Err(ApiError::invalid_argument("n must be at least 1".to_string()));
            }
            ChaosMode::FailNext { remaining: n, status }
        },
        ControlRequest::PermanentReject => ChaosMode::PermanentReject,
        ControlRequest::DelayMs { ms } => ChaosMode::DelayMs(ms),
    };
    state.set(mode);
    Ok(())
}

/// Whether control requests are accepted: only where the environment says so in so many words.
pub fn test_control_enabled(env: &Environment) -> (r: bool)
    ensures
        r == match env.value("FAKE_CHARGE_ENABLE_TEST_CONTROL"@) {
            EnvText::Text(value) => value == "true"@ || value == "1"@,
            _ => false,
        },
{
    match env.var("FAKE_CHARGE_ENABLE_TEST_CONTROL") {
        EnvValue::Text(value) => same_text(&value, "true") || same_text(&value, "1"),
        _ => false,
    }
}

/// What becomes of a request: it goes on unless failures are switched on. A rejection for good is
/// answered with 422, and lasts; so does a delay. A failure that was asked for is answered with the
/// status asked for, or with 503 where that is none.
pub proof fn law_requests_fail_only_where_asked_for(mode: ChaosMode, n: nat)
    ensures
        mode is Normal || mode is DelayMs ==> mode.decision() is Proceed,
        mode is PermanentReject ==> mode.decision() == ChaosDecision::Reject(422),
        mode matches ChaosMode::FailNext { status, .. } ==> {
            &&& 100 <= status <= 999 ==> mode.decision() == ChaosDecision::Reject(status)
            &&& status < 100 || status > 999 ==> mode.decision() == ChaosDecision::Reject(503)
        },
        mode !is FailNext ==> mode.after_one() == mode && mode.after(n) == mode,
        mode matches ChaosMode::FailNext { remaining, status } ==> {
            &&& remaining > 1 ==> mode.after_one() == (ChaosMode::FailNext {
                remaining: (remaining - 1) as u32,
                status,
            })
            &&& remaining <= 1 ==> mode.after_one() is Normal
        },
    decreases n,
{
    if n > 0 && mode !is FailNext {
        law_requests_fail_only_where_asked_for(mode, (n - 1) as nat);
    }
}

/// The start of a request counts one more in progress, and raises the peak only where there were never
/// as many before; its end counts one less. Neither touches the mode.
pub proof fn law_requests_are_counted_while_they_last(state: ChaosState)
    requires
        state.inflight < usize::MAX,
    ensures
        state.started().inflight == state.inflight + 1,
        state.peak_inflight > state.inflight ==> state.started().peak_inflight
            == state.peak_inflight,
        state.peak_inflight <= state.inflight ==> state.started().peak_inflight == state.inflight
            + 1,
        state.started().mode == state.mode,
        state.started().ended().inflight == state.inflight,
        state.started().ended().peak_inflight == state.started().peak_inflight,
        state.started().ended().mode == state.mode,
{
}

} // verus!
