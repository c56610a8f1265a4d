//! The credential store's singleflight refresh protocol and the
//! deadline-bounded fetch engine.
//!
//! The store itself — a shared optional token under a value lock, and a
//! dedicated refresh guard that serializes authentication — lives with the
//! driver that owns the locks and the network. The decisions are here,
//! verified: what a refresh section does once the guard is held, and how
//! one fetch call walks its at-most-one-retry state machine. The driver
//! performs each returned step and reports its outcome as the next event.

use crate::rpc::RpcCallError;
use crate::types::AuthResult;
use crate::types::RouterInfoResult;
use vstd::prelude::*;

verus! {

/// Failure of one external fetch call: a structured call failure, a
/// structurally valid authentication response without a token, or a budget
/// that ran out before a step that needs the network.
#[derive(Debug)]
pub enum FetchError {
    Call(RpcCallError),
    AuthenticationFailed,
    DeadlineExceeded,
}

/// The reserved credential-expiry range of application error codes: a code
/// in it means the presented token is invalid, expired or missing.
pub const CREDENTIAL_ERROR_MIN: i32 = -32004;

/// Upper end of the reserved credential-expiry code range.
pub const CREDENTIAL_ERROR_MAX: i32 = -32002;

/// The failure reports an invalid, expired or missing credential.
pub open spec fn spec_is_credential_error(e: RpcCallError) -> bool {
    e matches RpcCallError::Rpc { code, .. } && CREDENTIAL_ERROR_MIN <= code
        <= CREDENTIAL_ERROR_MAX
}

/// The failure reports an invalid, expired or missing credential.
pub fn is_credential_error(e: &RpcCallError) -> (r: bool)
    ensures
        r == spec_is_credential_error(*e),
{
    match e {
        RpcCallError::Rpc { code, .. } => CREDENTIAL_ERROR_MIN <= *code && *code
            <= CREDENTIAL_ERROR_MAX,
        _ => false,
    }
}

// ---------------------------------------------------------------------
// The refresh protocol (singleflight).
// ---------------------------------------------------------------------

/// What one refresh section does after acquiring the refresh guard.
pub enum AuthFlow {
    /// Another caller already refreshed while this one waited on the
    /// guard: reuse its token, issue no network call.
    Reuse(String),
    /// No token is cached: this caller issues the one network call.
    CallNetwork,
}

/// The double-check a refresh section makes after acquiring the refresh
/// guard: a cached token is reused without a network call; only a missing
/// token leads to the network.
pub fn refresh_decision(current: Option<String>) -> (r: AuthFlow)
    ensures
        match current {
            Some(t) => r matches AuthFlow::Reuse(t2) && t2 == t,
            None => r is CallNetwork,
        },
{
    match current {
        Some(t) => AuthFlow::Reuse(t),
        None => AuthFlow::CallNetwork,
    }
}

/// What a completed authentication call does to the shared session: a
/// response carrying a token is stored and returned; a structurally valid
/// response without one is a terminal authentication failure and stores
/// nothing; a failed call is passed through and stores nothing.
pub fn auth_outcome(r: Result<AuthResult, RpcCallError>) -> (out: (
    Option<String>,
    Result<String, FetchError>,
))
    ensures
        r matches Ok(a) ==> (a.token matches Some(t) ==> out.0 == Some::<String>(t) && (out.1
            matches Ok(t2) && t2 == t)),
        r matches Ok(a) ==> (a.token is None ==> out.0 is None && out.1 == Err::<
            String,
            FetchError,
        >(FetchError::AuthenticationFailed)),
        r matches Err(e) ==> out.0 is None && (out.1 matches Err(FetchError::Call(e2)) && e2
            == e),
{
    match r {
        Ok(a) => match a.token {
            Some(t) => (Some(t.clone()), Ok(t)),
            None => (None, Err(FetchError::AuthenticationFailed)),
        },
        Err(e) => (None, Err(FetchError::Call(e))),
    }
}

/// One serialized refresh section over the shared session, abstractly: a
/// section that finds a token reuses it and issues no network call; one
/// that finds none issues the one call and, where the call yields a token,
/// stores it. The pair is the session after the section and whether a
/// network call was issued.
pub open spec fn section_step(state: Option<Seq<char>>, outcome: Option<Seq<char>>) -> (
    Option<Seq<char>>,
    bool,
) {
    match state {
        Some(t) => (state, false),
        None => match outcome {
            Some(t) => (Some(t), true),
            None => (state, true),
        },
    }
}

/// The number of network authentication calls that consecutive serialized
/// refresh sections issue, where the `i`-th section's network call (if it
/// makes one) yields `outcomes[i]`.
pub open spec fn section_calls(state: Option<Seq<char>>, outcomes: Seq<Option<Seq<char>>>) -> nat
    decreases outcomes.len(),
{
    if outcomes.len() == 0 {
        0
    } else {
        (if section_step(state, outcomes[0]).1 {
            1nat
        } else {
            0nat
        }) + section_calls(section_step(state, outcomes[0]).0, outcomes.drop_first())
    }
}

/// A cached token stops every later section from calling the network.
pub proof fn lemma_cached_token_no_calls(t: Seq<char>, outcomes: Seq<Option<Seq<char>>>)
    ensures
        section_calls(Some(t), outcomes) == 0,
    decreases outcomes.len(),
{
    if outcomes.len() > 0 {
        lemma_cached_token_no_calls(t, outcomes.drop_first());
    }
}

/// Law (singleflight): with no cached token, and a remote that answers
/// each authentication with a token, any number of consecutive serialized
/// refresh sections issues exactly one network authentication call — the
/// refresh guard serializes the sections, and `refresh_decision` is the
/// double-check each section makes after acquiring it.
pub proof fn lemma_singleflight(outcomes: Seq<Option<Seq<char>>>)
    requires
        outcomes.len() >= 1,
        forall|i: int| 0 <= i < outcomes.len() ==> (#[trigger] outcomes[i]) is Some,
    ensures
        section_calls(None, outcomes) == 1,
{
    let first = outcomes[0];
    assert(first is Some);
    assert(section_step(None, first) == (Some(first->0), true));
    lemma_cached_token_no_calls(first->0, outcomes.drop_first());
}

// ---------------------------------------------------------------------
// The fetch engine.
// ---------------------------------------------------------------------

/// The phase of one external fetch call.
#[derive(Clone, Copy, PartialEq, Eq, Structural, Debug)]
pub enum FetchPhase {
    /// About to read the shared token.
    ReadToken,
    /// Waiting for the authentication issued because no token was cached.
    InitialAuth,
    /// Waiting for the status-fetch call.
    StatusCall,
    /// Waiting for the expired token to be cleared from the store.
    ClearSession,
    /// Waiting for the re-authentication after a credential-expiry error.
    RetryAuth,
    /// The call has produced its result.
    Finished,
}

/// The deadline-bounded fetch engine: an explicit two-state attempt
/// machine — first attempt, then at most one retry after a credential
/// expiry — with its absolute deadline fixed at the start and attempt
/// counters that bound its dispatches.
pub struct FetchEngine {
    /// Absolute deadline, computed once at the start of the call.
    pub deadline_ms: u64,
    /// Whether the one credential-expiry retry was already spent.
    pub did_retry: bool,
    /// Status-fetch calls dispatched so far.
    pub rpc_attempts: u8,
    /// Authentication calls dispatched so far.
    pub auth_attempts: u8,
    /// Where the call stands.
    pub phase: FetchPhase,
}

/// What the engine asks its driver to do next.
pub enum FetchStep {
    /// Read the shared token and report it.
    ReadToken,
    /// Run one refresh section with the given per-call budget.
    Authenticate { timeout_ms: u64 },
    /// Issue the status-fetch call with the given token and budget.
    CallRouterInfo { token: String, timeout_ms: u64 },
    /// Clear the shared token: the one it holds was rejected as expired.
    ClearToken,
    /// The call is over; hand this to the caller.
    Done(Result<RouterInfoResult, FetchError>),
}

/// What the driver reports back after performing a step.
pub enum FetchEvent {
    TokenIs(Option<String>),
    AuthCompleted(Result<String, FetchError>),
    TokenCleared,
    RpcCompleted(Result<RouterInfoResult, RpcCallError>),
}

/// The payload-free reading of an event, for the engine's control law.
pub enum EventRep {
    TokenIs(bool),
    AuthOk,
    AuthFailed,
    Cleared,
    RpcOk,
    RpcErr { credential: bool },
}

/// The payload-free reading of a step.
pub enum StepRep {
    ReadToken,
    Authenticate(u64),
    CallRouterInfo(u64),
    ClearToken,
    DoneOk,
    DoneErr,
}

/// The control content of an event.
pub open spec fn event_rep(e: FetchEvent) -> EventRep {
    match e {
        FetchEvent::TokenIs(t) => EventRep::TokenIs(t is Some),
        FetchEvent::AuthCompleted(r) => if r is Ok {
            EventRep::AuthOk
        } else {
            EventRep::AuthFailed
        },
        FetchEvent::TokenCleared => EventRep::Cleared,
        FetchEvent::RpcCompleted(r) => match r {
            Ok(d) => EventRep::RpcOk,
            Err(e) => EventRep::RpcErr { credential: spec_is_credential_error(e) },
        },
    }
}

/// The control content of a step.
pub open spec fn step_of(s: FetchStep) -> StepRep {
    match s {
        FetchStep::ReadToken => StepRep::ReadToken,
        FetchStep::Authenticate { timeout_ms } => StepRep::Authenticate(timeout_ms),
        FetchStep::CallRouterInfo { token, timeout_ms } => StepRep::CallRouterInfo(timeout_ms),
        FetchStep::ClearToken => StepRep::ClearToken,
        FetchStep::Done(r) => if r is Ok {
            StepRep::DoneOk
        } else {
            StepRep::DoneErr
        },
    }
}

/// The time left until `deadline`, never negative.
pub open spec fn remaining_ms(deadline: u64, now: u64) -> u64 {
    if now >= deadline {
        0u64
    } else {
        (deadline - now) as u64
    }
}

impl FetchEngine {
    /// Attempt bookkeeping that every reachable engine state satisfies: at
    /// most two status-fetch dispatches, and at most three authentication
    /// dispatches (the third only where the store was emptied again between
    /// the retry and the re-read).
    pub open spec fn wf(self) -> bool {
        match self.phase {
            FetchPhase::ReadToken => if !self.did_retry {
                self.rpc_attempts == 0 && self.auth_attempts == 0
            } else {
                self.rpc_attempts <= 1 && self.auth_attempts <= 2
            },
            FetchPhase::InitialAuth => if !self.did_retry {
                self.rpc_attempts == 0 && self.auth_attempts <= 1
            } else {
                self.rpc_attempts <= 1 && self.auth_attempts <= 3
            },
            FetchPhase::StatusCall => if !self.did_retry {
                self.rpc_attempts <= 1 && self.auth_attempts <= 1
            } else {
                self.rpc_attempts <= 2 && self.auth_attempts <= 3
            },
            FetchPhase::ClearSession => self.did_retry && self.rpc_attempts <= 1
                && self.auth_attempts <= 1,
            FetchPhase::RetryAuth => self.did_retry && self.rpc_attempts <= 1
                && self.auth_attempts <= 2,
            FetchPhase::Finished => self.rpc_attempts <= 2 && self.auth_attempts <= 3,
        }
    }

    /// The event kind each phase awaits.
    pub open spec fn event_fits(self, e: FetchEvent) -> bool {
        match self.phase {
            FetchPhase::ReadToken => e is TokenIs,
            FetchPhase::InitialAuth => e is AuthCompleted,
            FetchPhase::StatusCall => e is RpcCompleted,
            FetchPhase::ClearSession => e is TokenCleared,
            FetchPhase::RetryAuth => e is AuthCompleted,
            FetchPhase::Finished => false,
        }
    }
}

/// How many steps the engine can still take before it must be finished.
pub open spec fn steps_left(m: FetchEngine) -> nat {
    (match m.phase {
        FetchPhase::ReadToken => 5nat,
        FetchPhase::InitialAuth => 4nat,
        FetchPhase::StatusCall => 3nat,
        FetchPhase::ClearSession => 8nat,
        FetchPhase::RetryAuth => 7nat,
        FetchPhase::Finished => 0nat,
    }) + if !m.did_retry {
        10nat
    } else {
        0nat
    }
}

/// `m` finished.
pub open spec fn finished(m: FetchEngine) -> FetchEngine {
    FetchEngine { phase: FetchPhase::Finished, ..m }
}

/// The engine's whole control behaviour: given its state, the control
/// content of the next event, and the time now, the state after the step
/// and the control content of the step it returns.
pub open spec fn step_rep(m: FetchEngine, ev: EventRep, now: u64) -> (FetchEngine, StepRep) {
    let rem = remaining_ms(m.deadline_ms, now);
    match (m.phase, ev) {
        (FetchPhase::ReadToken, EventRep::TokenIs(present)) => {
            if rem == 0 {
                (finished(m), StepRep::DoneErr)
            } else if present {
                (
                    FetchEngine {
                        rpc_attempts: (m.rpc_attempts + 1) as u8,
                        phase: FetchPhase::StatusCall,
                        ..m
                    },
                    StepRep::CallRouterInfo(rem),
                )
            } else {
                (
                    FetchEngine {
                        auth_attempts: (m.auth_attempts + 1) as u8,
                        phase: FetchPhase::InitialAuth,
                        ..m
                    },
                    StepRep::Authenticate(rem),
                )
            }
        },
        (FetchPhase::InitialAuth, EventRep::AuthOk) => {
            if rem == 0 {
                (finished(m), StepRep::DoneErr)
            } else {
                (
                    FetchEngine {
                        rpc_attempts: (m.rpc_attempts + 1) as u8,
                        phase: FetchPhase::StatusCall,
                        ..m
                    },
                    StepRep::CallRouterInfo(rem),
                )
            }
        },
        (FetchPhase::InitialAuth, EventRep::AuthFailed) => (finished(m), StepRep::DoneErr),
        (FetchPhase::StatusCall, EventRep::RpcOk) => (finished(m), StepRep::DoneOk),
        (FetchPhase::StatusCall, EventRep::RpcErr { credential }) => {
            if credential && !m.did_retry {
                (
                    FetchEngine { did_retry: true, phase: FetchPhase::ClearSession, ..m },
                    StepRep::ClearToken,
                )
            } else {
                (finished(m), StepRep::DoneErr)
            }
        },
        (FetchPhase::ClearSession, EventRep::Cleared) => {
            if rem == 0 {
                (finished(m), StepRep::DoneErr)
            } else {
                (
                    FetchEngine {
                        auth_attempts: (m.auth_attempts + 1) as u8,
                        phase: FetchPhase::RetryAuth,
                        ..m
                    },
                    StepRep::Authenticate(rem),
                )
            }
        },
        (FetchPhase::RetryAuth, EventRep::AuthOk) => (
            FetchEngine { phase: FetchPhase::ReadToken, ..m },
            StepRep::ReadToken,
        ),
        (FetchPhase::RetryAuth, EventRep::AuthFailed) => (finished(m), StepRep::DoneErr),
        _ => (m, StepRep::ReadToken),
    }
}

/// Every step from a reachable state keeps the bookkeeping, and takes the
/// engine strictly closer to finishing unless it finishes.
pub proof fn lemma_step_rep_wf(m: FetchEngine, ev: EventRep, now: u64)
    requires
        m.wf(),
    ensures
        step_rep(m, ev, now).0.wf(),
        step_rep(m, ev, now).0 != m ==> steps_left(step_rep(m, ev, now).0) < steps_left(m),
{
}

impl FetchEngine {
    /// Starts one fetch call: the absolute deadline is `now` plus the
    /// overall budget, computed once, here, and never recomputed.
    pub fn start(now_ms: u64, overall_timeout_ms: u64) -> (r: (FetchEngine, FetchStep))
        ensures
            r.0 == (FetchEngine {
                deadline_ms: if now_ms + overall_timeout_ms <= u64::MAX {
                    (now_ms + overall_timeout_ms) as u64
                } else {
                    u64::MAX
                },
                did_retry: false,
                rpc_attempts: 0,
                auth_attempts: 0,
                phase: FetchPhase::ReadToken,
            }),
            r.0.wf(),
            r.1 is ReadToken,
    {
        let deadline_ms = if now_ms <= u64::MAX - overall_timeout_ms {
            now_ms + overall_timeout_ms
        } else {
            u64::MAX
        };
        (
            FetchEngine {
                deadline_ms,
                did_retry: false,
                rpc_attempts: 0,
                auth_attempts: 0,
                phase: FetchPhase::ReadToken,
            },
            FetchStep::ReadToken,
        )
    }

    /// Performs one step of the fetch call: consumes the event the current
    /// phase awaits, at time `now_ms`, and returns what the driver must do
    /// next. The control behaviour is exactly `step_rep`; the payloads pass
    /// through unchanged. A step that needs the network first checks the
    /// deadline and finishes with `DeadlineExceeded` where no time is left.
    pub fn step(&mut self, event: FetchEvent, now_ms: u64) -> (r: FetchStep)
        requires
            old(self).wf(),
            old(self).event_fits(event),
        ensures
            final(self).wf(),
            *final(self) == step_rep(*old(self), event_rep(event), now_ms).0,
            step_of(r) == step_rep(*old(self), event_rep(event), now_ms).1,
            r is Done <==> final(self).phase is Finished,
            final(self).rpc_attempts <= 2,
            final(self).auth_attempts <= 3,
            // the payloads: the token and the results pass through unchanged
            event matches FetchEvent::TokenIs(Some(t)) ==> (remaining_ms(
                old(self).deadline_ms,
                now_ms,
            ) > 0 ==> (r matches FetchStep::CallRouterInfo { token, timeout_ms } && token == t)),
            event matches FetchEvent::AuthCompleted(Ok(t)) ==> ((old(self).phase is InitialAuth
                && remaining_ms(old(self).deadline_ms, now_ms) > 0) ==> (r matches
                FetchStep::CallRouterInfo { token, timeout_ms } && token == t)),
            event matches FetchEvent::AuthCompleted(Err(e)) ==> (r matches FetchStep::Done(res)
                && res matches Err(e2) && e2 == e),
            event matches FetchEvent::RpcCompleted(Ok(d)) ==> (r matches FetchStep::Done(res)
                && res matches Ok(d2) && d2 == d),
            event matches FetchEvent::RpcCompleted(Err(e)) ==> (!(spec_is_credential_error(e)
                && !old(self).did_retry) ==> (r matches FetchStep::Done(res) && res matches Err(
                FetchError::Call(e2),
            ) && e2 == e)),
            (step_rep(*old(self), event_rep(event), now_ms).1 is DoneErr && !(event
                is AuthCompleted) && !(event is RpcCompleted)) ==> r == FetchStep::Done(
                Err::<RouterInfoResult, FetchError>(FetchError::DeadlineExceeded),
            ),
            event matches FetchEvent::AuthCompleted(Ok(t)) ==> ((old(self).phase is InitialAuth
                && remaining_ms(old(self).deadline_ms, now_ms) == 0) ==> r == FetchStep::Done(
                Err::<RouterInfoResult, FetchError>(FetchError::DeadlineExceeded),
            )),
    {
        let rem = if now_ms >= self.deadline_ms {
            0
        } else {
            self.deadline_ms - now_ms
        };
        match event {
            FetchEvent::TokenIs(current) => {
                if rem == 0 {
                    self.phase = FetchPhase::Finished;
                    FetchStep::Done(Err(FetchError::DeadlineExceeded))
                } else {
                    match current {
                        Some(token) => {
                            self.rpc_attempts = self.rpc_attempts + 1;
                            self.phase = FetchPhase::StatusCall;
                            FetchStep::CallRouterInfo { token, timeout_ms: rem }
                        },
                        None => {
                            self.auth_attempts = self.auth_attempts + 1;
                            self.phase = FetchPhase::InitialAuth;
                            FetchStep::Authenticate { timeout_ms: rem }
                        },
                    }
                }
            },
            FetchEvent::AuthCompleted(outcome) => {
                match outcome {
                    Ok(token) => {
                        match self.phase {
                            FetchPhase::RetryAuth => {
                                self.phase = FetchPhase::ReadToken;
                                FetchStep::ReadToken
                            },
                            _ => {
                                if rem == 0 {
                                    self.phase = FetchPhase::Finished;
                                    FetchStep::Done(Err(FetchError::DeadlineExceeded))
                                } else {
                                    self.rpc_attempts = self.rpc_attempts + 1;
                                    self.phase = FetchPhase::StatusCall;
                                    FetchStep::CallRouterInfo { token, timeout_ms: rem }
                                }
                            },
                        }
                    },
                    Err(e) => {
                        self.phase = FetchPhase::Finished;
                        FetchStep::Done(Err(e))
                    },
                }
            },
            FetchEvent::TokenCleared => {
                if rem == 0 {
                    self.phase = FetchPhase::Finished;
                    FetchStep::Done(Err(FetchError::DeadlineExceeded))
                } else {
                    self.auth_attempts = self.auth_attempts + 1;
                    self.phase = FetchPhase::RetryAuth;
                    FetchStep::Authenticate { timeout_ms: rem }
                }
            },
            FetchEvent::RpcCompleted(outcome) => {
                match outcome {
                    Ok(data) => {
                        self.phase = FetchPhase::Finished;
                        FetchStep::Done(Ok(data))
                    },
                    Err(e) => {
                        if is_credential_error(&e) && !self.did_retry {
                            self.did_retry = true;
                            self.phase = FetchPhase::ClearSession;
                            FetchStep::ClearToken
                        } else {
                            self.phase = FetchPhase::Finished;
                            FetchStep::Done(Err(FetchError::Call(e)))
                        }
                    },
                }
            },
        }
    }
}

/// The engine state after consuming a sequence of timed events.
pub open spec fn run(m: FetchEngine, evs: Seq<(EventRep, u64)>) -> FetchEngine
    decreases evs.len(),
{
    if evs.len() == 0 {
        m
    } else {
        run(step_rep(m, evs[0].0, evs[0].1).0, evs.drop_first())
    }
}

/// Law (bounded retry): against a remote that answers every status fetch
/// with a credential-expiry error and every authentication with a token,
/// one fetch call that starts with no cached token and whose steps all
/// fall within its budget terminates with an error after exactly two
/// status-fetch dispatches and two authentication dispatches.
pub proof fn lemma_bounded_retry(deadline_ms: u64, nows: Seq<u64>)
    requires
        nows.len() == 7,
        forall|i: int| 0 <= i < 7 ==> #[trigger] nows[i] < deadline_ms,
    ensures
        ({
            let m0 = FetchEngine {
                deadline_ms,
                did_retry: false,
                rpc_attempts: 0,
                auth_attempts: 0,
                phase: FetchPhase::ReadToken,
            };
            let evs = seq![
                (EventRep::TokenIs(false), nows[0]),
                (EventRep::AuthOk, nows[1]),
                (EventRep::RpcErr { credential: true }, nows[2]),
                (EventRep::Cleared, nows[3]),
                (EventRep::AuthOk, nows[4]),
                (EventRep::TokenIs(true), nows[5]),
                (EventRep::RpcErr { credential: true }, nows[6]),
            ];
            &&& run(m0, evs).phase is Finished
            &&& run(m0, evs).rpc_attempts == 2
            &&& run(m0, evs).auth_attempts == 2
            &&& step_rep(run(m0, evs.take(6)), EventRep::RpcErr { credential: true }, nows[6]).1
                is DoneErr
        }),
{
    let m0 = FetchEngine {
        deadline_ms,
        did_retry: false,
        rpc_attempts: 0,
        auth_attempts: 0,
        phase: FetchPhase::ReadToken,
    };
    let evs = seq![
        (EventRep::TokenIs(false), nows[0]),
        (EventRep::AuthOk, nows[1]),
        (EventRep::RpcErr { credential: true }, nows[2]),
        (EventRep::Cleared, nows[3]),
        (EventRep::AuthOk, nows[4]),
        (EventRep::TokenIs(true), nows[5]),
        (EventRep::RpcErr { credential: true }, nows[6]),
    ];
    let m1 = step_rep(m0, evs[0].0, evs[0].1).0;
    let m2 = step_rep(m1, evs[1].0, evs[1].1).0;
    let m3 = step_rep(m2, evs[2].0, evs[2].1).0;
    let m4 = step_rep(m3, evs[3].0, evs[3].1).0;
    let m5 = step_rep(m4, evs[4].0, evs[4].1).0;
    let m6 = step_rep(m5, evs[5].0, evs[5].1).0;
    let m7 = step_rep(m6, evs[6].0, evs[6].1).0;
    assert(m1.phase is InitialAuth && m1.auth_attempts == 1 && m1.rpc_attempts == 0);
    assert(m2.phase is StatusCall && m2.rpc_attempts == 1);
    assert(m3.phase is ClearSession && m3.did_retry);
    assert(m4.phase is RetryAuth && m4.auth_attempts == 2);
    assert(m5.phase is ReadToken);
    assert(m6.phase is StatusCall && m6.rpc_attempts == 2);
    assert(m7.phase is Finished && m7.rpc_attempts == 2 && m7.auth_attempts == 2);
    assert(run(m0, evs) == m7) by {
        let e1 = evs.drop_first();
        let e2 = e1.drop_first();
        let e3 = e2.drop_first();
        let e4 = e3.drop_first();
        let e5 = e4.drop_first();
        let e6 = e5.drop_first();
        let e7 = e6.drop_first();
        assert(e7.len() == 0);
        assert(run(m0, evs) == run(m1, e1));
        assert(run(m1, e1) == run(m2, e2));
        assert(run(m2, e2) == run(m3, e3));
        assert(run(m3, e3) == run(m4, e4));
        assert(run(m4, e4) == run(m5, e5));
        assert(run(m5, e5) == run(m6, e6));
        assert(run(m6, e6) == run(m7, e7));
        assert(run(m7, e7) == m7);
    }
    assert(run(m0, evs.take(6)) == m6) by {
        let t = evs.take(6);
        assert(t.len() == 6);
        assert(t[0] == evs[0] && t[1] == evs[1] && t[2] == evs[2] && t[3] == evs[3] && t[4]
            == evs[4] && t[5] == evs[5]);
        let f1 = t.drop_first();
        let f2 = f1.drop_first();
        let f3 = f2.drop_first();
        let f4 = f3.drop_first();
        let f5 = f4.drop_first();
        let f6 = f5.drop_first();
        assert(f6.len() == 0);
        assert(run(m0, t) == run(m1, f1));
        assert(run(m1, f1) == run(m2, f2));
        assert(run(m2, f2) == run(m3, f3));
        assert(run(m3, f3) == run(m4, f4));
        assert(run(m4, f4) == run(m5, f5));
        assert(run(m5, f5) == run(m6, f6));
    }
}

} // verus!
