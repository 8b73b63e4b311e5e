//! The retry loop as a state machine: from the outcome of one execution to
//! what the caller does next.

use vstd::prelude::*;
use crate::backoff::{backoff_at, backoff_time_at, exponential_wait, get_backoff_time};
use crate::error::ReqwestBackoffError;
use crate::host::{get_host_from_request, policy_of, url_domain, HostType};
use crate::throttle::{
    check_response_is_backoff,
    is_backoff_limit_reached,
    is_throttle_signal,
    max_attempts,
    ResponseSummary,
};

verus! {

/// What one execution of the request came to.
#[derive(Debug, Clone, PartialEq, Eq)]
pub enum RetryEvent {
    /// The transport produced a response.
    Response(ResponseSummary),
    /// The transport failed before any response arrived.
    TransportFailure,
}

/// What the caller does after an execution.
#[derive(Debug, Clone, Copy, PartialEq, Eq, Structural)]
pub enum RetryAction {
    /// Hand the response of this execution to the caller as it is.
    Deliver,
    /// Sleep for the given seconds, then execute the request again.
    WaitAndRetry { seconds: u64 },
    /// Give up with this error.
    Fail(ReqwestBackoffError),
}

/// The state of one logical request between executions.
#[derive(Debug, Clone, Copy, PartialEq, Eq, Structural)]
pub struct RetryState {
    /// The policy of the target host, fixed when the request starts.
    pub host: HostType,
    /// The number of the execution that is under way, counted from one.
    pub attempt: u32,
    /// Whether the request can be duplicated, and so be sent again.
    pub replayable: bool,
}

/// The action that follows an event seen at the time `now`.
pub open spec fn next_action(state: RetryState, event: RetryEvent, now: i64) -> RetryAction {
    match event {
        RetryEvent::TransportFailure => RetryAction::Fail(ReqwestBackoffError::Reqwest),
        RetryEvent::Response(response) => if !state.replayable {
            RetryAction::Deliver
        } else if !is_throttle_signal(response.status, state.host) {
            RetryAction::Deliver
        } else if state.attempt > max_attempts(state.host) {
            RetryAction::Fail(
                ReqwestBackoffError::BackoffExceeded { backoff_attempts: state.attempt },
            )
        } else {
            match backoff_at(response, state.host, state.attempt, now) {
                Ok(seconds) => RetryAction::WaitAndRetry { seconds },
                Err(fault) => RetryAction::Fail(fault),
            }
        },
    }
}

/// The state after an event: the attempt counts one more where the request
/// is to be executed again, and nothing changes otherwise.
pub open spec fn next_state(state: RetryState, event: RetryEvent, now: i64) -> RetryState {
    match next_action(state, event, now) {
        RetryAction::WaitAndRetry { .. } => RetryState {
            host: state.host,
            attempt: (state.attempt + 1) as u32,
            replayable: state.replayable,
        },
        _ => state,
    }
}

/// The state after `count` responses in a row, each seen at the time `now`.
pub open spec fn after_responses(
    state: RetryState,
    response: ResponseSummary,
    now: i64,
    count: nat,
) -> RetryState
    decreases count,
{
    if count == 0 {
        state
    } else {
        next_state(
            after_responses(state, response, now, (count - 1) as nat),
            RetryEvent::Response(response),
            now,
        )
    }
}

impl RetryState {
    /// The attempt is one that a request started by [`RetryState::start`] can
    /// be at: from one up to one past the ceiling of its host.
    pub open spec fn wf(&self) -> bool {
        1 <= self.attempt <= max_attempts(self.host) + 1
    }

    /// The state in which the first execution of a request is under way.
    pub fn start(host: HostType, replayable: bool) -> (state: RetryState)
        ensures
            state == (RetryState { host, attempt: 1, replayable }),
            state.wf(),
    {
        RetryState { host, attempt: 1, replayable }
    }

    /// Classifies the target of a request once, from the text of its URL, and
    /// starts at the first execution.
    pub fn for_request(url: &str, replayable: bool) -> (state: RetryState)
        ensures
            state == (RetryState { host: policy_of(url_domain(url@)), attempt: 1, replayable }),
            state.wf(),
    {
        RetryState::start(get_host_from_request(url), replayable)
    }

    /// Decides what follows an event that was seen at the time `now`, and
    /// moves to the next attempt where that is another execution.
    pub fn decide_at(&mut self, event: &RetryEvent, now: i64) -> (action: RetryAction)
        ensures
            action == next_action(*old(self), *event, now),
            *final(self) == next_state(*old(self), *event, now),
            old(self).wf() ==> final(self).wf(),
    {
        match event {
            RetryEvent::TransportFailure => RetryAction::Fail(ReqwestBackoffError::Reqwest),
            RetryEvent::Response(response) => {
                if !self.replayable {
                    return RetryAction::Deliver;
                }
                if !check_response_is_backoff(response, self.host) {
                    return RetryAction::Deliver;
                }
                if is_backoff_limit_reached(self.attempt, self.host) {
                    return RetryAction::Fail(
                        ReqwestBackoffError::BackoffExceeded { backoff_attempts: self.attempt },
                    );
                }
                match backoff_time_at(response, self.host, self.attempt, now) {
                    Ok(seconds) => {
                        self.attempt = self.attempt + 1;
                        RetryAction::WaitAndRetry { seconds }
                    },
                    Err(fault) => RetryAction::Fail(fault),
                }
            },
        }
    }

    /// Decides what follows an event, reading the clock where the wait
    /// depends on it. The outcome is that of [`RetryState::decide_at`] at the
    /// time the clock showed.
    pub fn decide(&mut self, event: &RetryEvent) -> (action: RetryAction)
        ensures
            exists|now: i64|
                action == #[trigger] next_action(*old(self), *event, now) && *final(self)
                    == next_state(*old(self), *event, now),
            old(self).wf() ==> final(self).wf(),
    {
        match event {
            RetryEvent::TransportFailure => {
                assert(RetryAction::Fail(ReqwestBackoffError::Reqwest) == next_action(
                    *self,
                    *event,
                    0,
                ));
                RetryAction::Fail(ReqwestBackoffError::Reqwest)
            },
            RetryEvent::Response(response) => {
                if !self.replayable || !check_response_is_backoff(response, self.host)
                    || is_backoff_limit_reached(self.attempt, self.host) {
                    return self.decide_at(event, 0);
                }
                let ghost before = *self;
                match get_backoff_time(response, self.host, self.attempt) {
                    Ok(seconds) => {
                        self.attempt = self.attempt + 1;
                        proof {
                            let now = choose|now: i64|
                                Ok::<u64, ReqwestBackoffError>(seconds) == #[trigger] backoff_at(
                                    *response,
                                    before.host,
                                    before.attempt,
                                    now,
                                );
                            assert(RetryAction::WaitAndRetry { seconds } == next_action(
                                before,
                                *event,
                                now,
                            ));
                        }
                        RetryAction::WaitAndRetry { seconds }
                    },
                    Err(fault) => {
                        proof {
                            let now = choose|now: i64|
                                Err::<u64, ReqwestBackoffError>(fault) == #[trigger] backoff_at(
                                    *response,
                                    before.host,
                                    before.attempt,
                                    now,
                                );
                            assert(RetryAction::Fail(fault) == next_action(before, *event, now));
                        }
                        RetryAction::Fail(fault)
                    },
                }
            },
        }
    }
}

/// A request that cannot be duplicated is executed once: whatever the
/// response, throttle signal or not, it is delivered as it is, a transport
/// failure is passed on, and the attempt never moves.
pub proof fn unreplayable_request_runs_once(state: RetryState, event: RetryEvent, now: i64)
    requires
        !state.replayable,
    ensures
        event is Response ==> next_action(state, event, now) == RetryAction::Deliver,
        event is TransportFailure ==> next_action(state, event, now) == RetryAction::Fail(
            ReqwestBackoffError::Reqwest,
        ),
        next_state(state, event, now) == state,
{
}

/// A throttle signal is never delivered for a request that can be sent
/// again, and every other response is delivered at once, with its status
/// untouched.
pub proof fn delivers_exactly_the_unthrottled(state: RetryState, response: ResponseSummary, now: i64)
    requires
        state.replayable,
    ensures
        next_action(state, RetryEvent::Response(response), now) == RetryAction::Deliver
            <==> !is_throttle_signal(response.status, state.host),
{
}

/// The limit is tested before any wait is computed: past the ceiling a
/// throttle signal ends the request with the attempts made, whatever its
/// metadata, and the attempt that gave up waits for nothing.
pub proof fn exhausted_budget_fails_fast(state: RetryState, response: ResponseSummary, now: i64)
    requires
        state.replayable,
        is_throttle_signal(response.status, state.host),
        state.attempt > max_attempts(state.host),
    ensures
        next_action(state, RetryEvent::Response(response), now) == RetryAction::Fail(
            ReqwestBackoffError::BackoffExceeded { backoff_attempts: state.attempt },
        ),
        next_state(state, RetryEvent::Response(response), now) == state,
{
}

/// A Google or Youtube host that answers every execution with the same
/// throttle signal is waited for with the exponential schedule fifty times;
/// the fifty-first response ends the request with fifty-one attempts and no
/// further execution.
pub proof fn google_gives_up_at_attempt_fifty_one(
    host: HostType,
    response: ResponseSummary,
    now: i64,
    count: nat,
)
    requires
        host == HostType::Google || host == HostType::Youtube,
        response.status == 403 || response.status == 400,
        count <= 50,
    ensures
        after_responses(RetryState { host, attempt: 1, replayable: true }, response, now, count)
            == (RetryState { host, attempt: (1 + count) as u32, replayable: true }),
        count < 50 ==> next_action(
            after_responses(RetryState { host, attempt: 1, replayable: true }, response, now, count),
            RetryEvent::Response(response),
            now,
        ) == (RetryAction::WaitAndRetry { seconds: exponential_wait((1 + count) as u32) as u64 }),
        count == 50 ==> next_action(
            after_responses(RetryState { host, attempt: 1, replayable: true }, response, now, count),
            RetryEvent::Response(response),
            now,
        ) == RetryAction::Fail(ReqwestBackoffError::BackoffExceeded { backoff_attempts: 51 }),
    decreases count,
{
    if count > 0 {
        google_gives_up_at_attempt_fifty_one(host, response, now, (count - 1) as nat);
    }
}

} // verus!
