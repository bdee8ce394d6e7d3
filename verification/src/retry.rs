//! The request engine: how many times one logical HTTP request is attempted,
//! and how long it waits between attempts.
//!
//! The engine makes no call itself. Its caller issues each attempt, reports
//! what came of it, and is told what to do next. An [`Attempt`] stands for one
//! call that may be made; reporting its outcome uses it up, so no more calls
//! can be made than attempts are handed out.

use vstd::prelude::*;
use vstd::arithmetic::power2::{
    lemma2_to64, lemma2_to64_rest, lemma_pow2_strictly_increases, lemma_pow2_unfold, pow2,
};
use crate::clock::Timestamp;
use crate::models::opt_text;
use crate::text::{chars_of, parse_i64, parsed_i64, spells};

verus! {

/// Upper bound on the number of HTTP calls made for one logical request.
pub const MAX_RETRIES: u32 = 3;

/// Seconds allowed for one HTTP call, from the request to the end of the
/// response.
pub const REQUEST_TIMEOUT_SECS: u64 = 30;

/// Seconds allowed for making the connection of one HTTP call.
pub const CONNECT_TIMEOUT_SECS: u64 = 10;

/// Delay before the first retry, in milliseconds; each later one doubles it.
pub const BACKOFF_BASE_MS: u64 = 500;

/// Seconds to wait after a rate-limited response that names no reset time.
pub const DEFAULT_RATE_LIMIT_WAIT_SECS: u64 = 5;

/// Shortest wait after a rate-limited response, in seconds.
pub const MIN_RATE_LIMIT_WAIT_SECS: u64 = 1;

/// Longest wait after a rate-limited response, in seconds.
pub const MAX_RATE_LIMIT_WAIT_SECS: u64 = 60;

/// The largest retry number whose delay fits in 64 bits.
pub const MAX_BACKOFF_RETRY: u32 = 56;

/// What the response headers and status say of a response.
#[derive(Clone, Copy, Debug, PartialEq, Eq, Structural)]
pub enum ResponseClass {
    /// A 2xx status: the response is the result.
    Success,
    /// The quota is used up: status 429, or 403 with no requests remaining.
    RateLimited,
    /// A 5xx status.
    ServerError,
    /// Any other status.
    ClientError,
}

/// A response as far as the engine reads it.
#[derive(Debug)]
pub struct Reply {
    /// The HTTP status code.
    pub status: u16,
    /// The header `x-ratelimit-remaining`, where it is present and readable.
    pub ratelimit_remaining: Option<String>,
    /// The header `x-ratelimit-reset`, where it is present and readable.
    pub ratelimit_reset: Option<String>,
    /// The body of a response that is an error; empty otherwise.
    pub body: String,
}

/// What came of one HTTP call.
#[derive(Debug)]
pub enum Outcome {
    /// The call timed out, or no connection could be made.
    Unreachable { detail: String },
    /// The transport failed in any other way.
    Broken { detail: String },
    /// A response arrived.
    Response(Reply),
}

/// A failure after which the call is made again, while attempts are left.
#[derive(Debug)]
pub enum Transient {
    /// The call timed out, or no connection could be made.
    TransientNetwork { detail: String },
    /// The service asked to slow down.
    RateLimited,
    /// The service answered with a 5xx status.
    ServerError { status: u16, body: String },
}

/// A failure that ends the request.
#[derive(Debug)]
pub enum RequestError {
    /// The transport failed in a way that another call would not mend.
    Transport { detail: String },
    /// The service refused the request: a status that is neither 2xx, 5xx
    /// nor a rate limit.
    ClientError { status: u16, body: String },
    /// A successful response whose body could not be decoded.
    DecodeError { detail: String },
    /// Every attempt failed; `last` is what the final one failed with.
    ExhaustedRetries { last: Option<Transient> },
}

/// What the caller does next.
#[derive(Debug)]
pub enum Verdict {
    /// Sleep `wait_ms` milliseconds, then make the call that `attempt`
    /// stands for.
    Send { wait_ms: u64, attempt: Attempt },
    /// The response just reported is the result.
    Deliver,
    /// Sleep `wait_ms` milliseconds, then return `error`.
    Fail { wait_ms: u64, error: RequestError },
}

/// The mathematical content of a [`Verdict`].
pub enum Decision {
    Send { wait_ms: int, number: nat },
    Deliver,
    Fail { wait_ms: int, error: RequestError },
}

/// One HTTP call that may be made: the `number`-th of its request, counted
/// from 0.
#[derive(Debug)]
pub struct Attempt {
    number: u32,
}

/// The class of a response with the given status and remaining quota.
pub open spec fn class_of(status: int, remaining: Option<Seq<char>>) -> ResponseClass {
    if status == 429 || (status == 403 && remaining == Some("0"@)) {
        ResponseClass::RateLimited
    } else if 500 <= status <= 599 {
        ResponseClass::ServerError
    } else if 200 <= status <= 299 {
        ResponseClass::Success
    } else {
        ResponseClass::ClientError
    }
}

/// Milliseconds slept before retry number `retry`, counted from 1: the base
/// delay doubled for each retry before it.
pub open spec fn backoff_ms(retry: nat) -> nat
    recommends
        retry >= 1,
{
    BACKOFF_BASE_MS as nat * pow2((retry - 1) as nat)
}

/// `v` held to the interval from `low` to `high`.
pub open spec fn clamped(v: int, low: int, high: int) -> int {
    if v < low {
        low
    } else if v > high {
        high
    } else {
        v
    }
}

/// Seconds to wait after a rate-limited response: the time left until the
/// quota resets at `reset`, held between one second and a minute; the default
/// where the response names no reset time.
pub open spec fn rate_limit_wait(reset: Option<i64>, now: int) -> int {
    match reset {
        Some(at) => clamped(
            at - now,
            MIN_RATE_LIMIT_WAIT_SECS as int,
            MAX_RATE_LIMIT_WAIT_SECS as int,
        ),
        None => DEFAULT_RATE_LIMIT_WAIT_SECS as int,
    }
}

/// The reset time that a response names, in seconds since the epoch.
pub open spec fn reset_time(header: Option<String>) -> Option<i64> {
    match header {
        Some(text) => parsed_i64(text@),
        None => None,
    }
}

/// The failure to retry after, where `outcome` is one.
pub open spec fn transient_of(outcome: Outcome) -> Option<Transient> {
    match outcome {
        Outcome::Unreachable { detail } => Some(Transient::TransientNetwork { detail }),
        Outcome::Broken { .. } => None,
        Outcome::Response(reply) => match class_of(
            reply.status as int,
            opt_text(reply.ratelimit_remaining),
        ) {
            ResponseClass::RateLimited => Some(Transient::RateLimited),
            ResponseClass::ServerError => Some(
                Transient::ServerError { status: reply.status, body: reply.body },
            ),
            _ => None,
        },
    }
}

/// The failure that ends the request at once, where `outcome` is one.
pub open spec fn fatal_of(outcome: Outcome) -> Option<RequestError> {
    match outcome {
        Outcome::Unreachable { .. } => None,
        Outcome::Broken { detail } => Some(RequestError::Transport { detail }),
        Outcome::Response(reply) => match class_of(
            reply.status as int,
            opt_text(reply.ratelimit_remaining),
        ) {
            ResponseClass::ClientError => Some(
                RequestError::ClientError { status: reply.status, body: reply.body },
            ),
            _ => None,
        },
    }
}

/// Whether the wait after `outcome` depends on the time: `outcome` is a
/// rate-limited response that names the time of its reset.
pub open spec fn waits_for_reset(outcome: Outcome) -> bool {
    outcome matches Outcome::Response(reply) && class_of(
        reply.status as int,
        opt_text(reply.ratelimit_remaining),
    ) == ResponseClass::RateLimited && reset_time(reply.ratelimit_reset) is Some
}

/// Milliseconds slept on account of a rate limit after `outcome`, at time
/// `now` in seconds since the epoch; 0 where `outcome` is no rate limit.
pub open spec fn rate_limit_pause_ms(outcome: Outcome, now: int) -> int {
    match outcome {
        Outcome::Response(reply) => if class_of(
            reply.status as int,
            opt_text(reply.ratelimit_remaining),
        ) == ResponseClass::RateLimited {
            1000 * rate_limit_wait(reset_time(reply.ratelimit_reset), now)
        } else {
            0
        },
        _ => 0,
    }
}

/// What follows when call number `number` ends in `outcome` at time `now`.
///
/// A failure that may pass is followed by another call while fewer than
/// [`MAX_RETRIES`] calls were made: after the pause that a rate limit asks
/// for, else after the backoff delay of the retry. Once the calls are used up
/// the request fails with that last failure. Any other failure ends the
/// request at once, without a pause. A success is delivered.
pub open spec fn decide(number: nat, outcome: Outcome, now: int) -> Decision {
    match transient_of(outcome) {
        Some(cause) => {
            let pause = rate_limit_pause_ms(outcome, now);
            if number + 1 < MAX_RETRIES {
                Decision::Send {
                    wait_ms: if cause is RateLimited {
                        pause
                    } else {
                        backoff_ms(number + 1) as int
                    },
                    number: number + 1,
                }
            } else {
                Decision::Fail {
                    wait_ms: pause,
                    error: RequestError::ExhaustedRetries { last: Some(cause) },
                }
            }
        },
        None => match fatal_of(outcome) {
            Some(error) => Decision::Fail { wait_ms: 0, error },
            None => Decision::Deliver,
        },
    }
}

/// What a request starts with: its first call, made at once.
pub open spec fn opening() -> Decision {
    if MAX_RETRIES > 0 {
        Decision::Send { wait_ms: 0, number: 0 }
    } else {
        Decision::Fail { wait_ms: 0, error: RequestError::ExhaustedRetries { last: None } }
    }
}

/// Classifies a response by its status and its remaining quota.
pub fn classify(status: u16, ratelimit_remaining: Option<&str>) -> (class: ResponseClass)
    ensures
        class == class_of(
            status as int,
            match ratelimit_remaining {
                Some(text) => Some(text@),
                None => None,
            },
        ),
{
    let spent = match ratelimit_remaining {
        Some(text) => {
            let chars = chars_of(text);
            spells(&chars, "0")
        },
        None => false,
    };
    if status == 429 || (status == 403 && spent) {
        ResponseClass::RateLimited
    } else if 500 <= status && status <= 599 {
        ResponseClass::ServerError
    } else if 200 <= status && status <= 299 {
        ResponseClass::Success
    } else {
        ResponseClass::ClientError
    }
}

/// The delay before retry number `retry`, in milliseconds.
pub fn backoff_delay_ms(retry: u32) -> (delay: u64)
    requires
        1 <= retry <= MAX_BACKOFF_RETRY,
    ensures
        delay == backoff_ms(retry as nat),
{
    let mut delay: u64 = BACKOFF_BASE_MS;
    let mut done: u32 = 1;
    proof {
        lemma2_to64();
    }
    while done < retry
        invariant
            1 <= done <= retry <= MAX_BACKOFF_RETRY,
            delay == BACKOFF_BASE_MS * pow2((done - 1) as nat),
        decreases retry - done,
    {
        proof {
            lemma_pow2_unfold(done as nat);
            if done < 55 {
                lemma_pow2_strictly_increases(done as nat, 55);
            }
            lemma2_to64_rest();
        }
        delay = delay * 2;
        done = done + 1;
    }
    delay
}

/// Seconds to wait after a rate-limited response that resets at `reset`,
/// seen at time `now`; both in seconds since the epoch.
pub fn rate_limit_wait_secs(reset: Option<i64>, now: i64) -> (wait: u64)
    ensures
        wait == rate_limit_wait(reset, now as int),
        MIN_RATE_LIMIT_WAIT_SECS <= wait <= MAX_RATE_LIMIT_WAIT_SECS,
{
    match reset {
        Some(at) => {
            if at <= now {
                MIN_RATE_LIMIT_WAIT_SECS
            } else {
                match at.checked_sub(now) {
                    Some(left) => {
                        if left > 60 {
                            MAX_RATE_LIMIT_WAIT_SECS
                        } else {
                            left as u64
                        }
                    },
                    None => MAX_RATE_LIMIT_WAIT_SECS,
                }
            }
        },
        None => DEFAULT_RATE_LIMIT_WAIT_SECS,
    }
}

impl Verdict {
    /// What the verdict says, apart from the attempt it hands out.
    pub open spec fn decision(self) -> Decision {
        match self {
            Verdict::Send { wait_ms, attempt } => Decision::Send {
                wait_ms: wait_ms as int,
                number: attempt.spec_number(),
            },
            Verdict::Deliver => Decision::Deliver,
            Verdict::Fail { wait_ms, error } => Decision::Fail { wait_ms: wait_ms as int, error },
        }
    }
}

impl Attempt {
    #[verifier::type_invariant]
    spec fn in_budget(self) -> bool {
        self.number < MAX_RETRIES
    }

    /// The index of this call among the calls of its request, from 0.
    pub closed spec fn spec_number(self) -> nat {
        self.number as nat
    }

    /// The index of this call among the calls of its request, from 0.
    pub fn number(&self) -> (n: u32)
        ensures
            n == self.spec_number(),
            n < MAX_RETRIES,
    {
        proof {
            use_type_invariant(self);
        }
        self.number
    }

    /// Starts a request.
    pub fn first() -> (verdict: Verdict)
        ensures
            verdict.decision() == opening(),
    {
        if MAX_RETRIES > 0 {
            Verdict::Send { wait_ms: 0, attempt: Attempt { number: 0 } }
        } else {
            Verdict::Fail { wait_ms: 0, error: RequestError::ExhaustedRetries { last: None } }
        }
    }

    /// Says what follows the call that `self` stands for, given that it ended
    /// in `outcome` at `now_secs` seconds since the epoch.
    pub fn conclude_at(self, outcome: Outcome, now_secs: i64) -> (verdict: Verdict)
        ensures
            verdict.decision() == decide(self.spec_number(), outcome, now_secs as int),
    {
        proof {
            use_type_invariant(&self);
        }
        let next = self.number + 1;
        match outcome {
            Outcome::Unreachable { detail } => {
                let cause = Transient::TransientNetwork { detail };
                if next < MAX_RETRIES {
                    Verdict::Send {
                        wait_ms: backoff_delay_ms(next),
                        attempt: Attempt { number: next },
                    }
                } else {
                    Verdict::Fail {
                        wait_ms: 0,
                        error: RequestError::ExhaustedRetries { last: Some(cause) },
                    }
                }
            },
            Outcome::Broken { detail } => Verdict::Fail {
                wait_ms: 0,
                error: RequestError::Transport { detail },
            },
            Outcome::Response(reply) => {
                let class = match &reply.ratelimit_remaining {
                    Some(text) => classify(reply.status, Some(text.as_str())),
                    None => classify(reply.status, None),
                };
                match class {
                    ResponseClass::Success => Verdict::Deliver,
                    ResponseClass::ClientError => Verdict::Fail {
                        wait_ms: 0,
                        error: RequestError::ClientError {
                            status: reply.status,
                            body: reply.body,
                        },
                    },
                    ResponseClass::ServerError => {
                        let cause = Transient::ServerError {
                            status: reply.status,
                            body: reply.body,
                        };
                        if next < MAX_RETRIES {
                            Verdict::Send {
                                wait_ms: backoff_delay_ms(next),
                                attempt: Attempt { number: next },
                            }
                        } else {
                            Verdict::Fail {
                                wait_ms: 0,
                                error: RequestError::ExhaustedRetries { last: Some(cause) },
                            }
                        }
                    },
                    ResponseClass::RateLimited => {
                        let reset = match &reply.ratelimit_reset {
                            Some(text) => parse_i64(text.as_str()),
                            None => None,
                        };
                        let pause = 1000 * rate_limit_wait_secs(reset, now_secs);
                        if next < MAX_RETRIES {
                            Verdict::Send { wait_ms: pause, attempt: Attempt { number: next } }
                        } else {
                            Verdict::Fail {
                                wait_ms: pause,
                                error: RequestError::ExhaustedRetries {
                                    last: Some(Transient::RateLimited),
                                },
                            }
                        }
                    },
                }
            },
        }
    }

    /// Says what follows the call that `self` stands for, given that it ended
    /// in `outcome` just now. The system clock is read only where the wait
    /// depends on it: after a rate-limited response that names its reset time.
    pub fn conclude(self, outcome: Outcome) -> (verdict: Verdict)
        ensures
            exists|now: int| verdict.decision() == decide(self.spec_number(), outcome, now),
            !waits_for_reset(outcome) ==> forall|now: int|
                verdict.decision() == decide(self.spec_number(), outcome, now),
    {
        let timed = match &outcome {
            Outcome::Response(reply) => {
                let class = match &reply.ratelimit_remaining {
                    Some(text) => classify(reply.status, Some(text.as_str())),
                    None => classify(reply.status, None),
                };
                let reset = match &reply.ratelimit_reset {
                    Some(text) => parse_i64(text.as_str()),
                    None => None,
                };
                match class {
                    ResponseClass::RateLimited => reset.is_some(),
                    _ => false,
                }
            },
            _ => false,
        };
        if timed {
            let now = Timestamp::now();
            self.conclude_at(outcome, now.secs())
        } else {
            self.conclude_at(outcome, 0)
        }
    }
}

/// The number of HTTP calls made from call number `number` on, where the
/// calls end as `events` say, one outcome and its time for each call in turn.
pub open spec fn calls_made(number: nat, events: Seq<(Outcome, int)>) -> nat
    decreases events.len(),
{
    if events.len() == 0 {
        0
    } else {
        match decide(number, events[0].0, events[0].1) {
            Decision::Send { number: next, .. } => 1 + calls_made(next, events.drop_first()),
            _ => 1,
        }
    }
}

/// How the request ends from call number `number` on, where the calls end as
/// `events` say; `None` while `events` leaves the last call unanswered.
pub open spec fn ending(number: nat, events: Seq<(Outcome, int)>) -> Option<Decision>
    decreases events.len(),
{
    if events.len() == 0 {
        None
    } else {
        match decide(number, events[0].0, events[0].1) {
            Decision::Send { number: next, .. } => ending(next, events.drop_first()),
            last => Some(last),
        }
    }
}

/// A failure that may pass is followed, while calls are left, by exactly one
/// pause and another call: the pause is the backoff delay of the retry, 500 ms
/// doubled for each retry before it, unless the response was rate-limited;
/// then it is the time to the reset, held between 1 and 60 seconds, or 5
/// seconds where the response names no reset time.
pub proof fn lemma_retry_pause(number: nat, outcome: Outcome, now: int)
    requires
        transient_of(outcome) is Some,
        number + 1 < MAX_RETRIES,
    ensures
        decide(number, outcome, now) matches Decision::Send { wait_ms, number: next } && next
            == number + 1 && (match outcome {
            Outcome::Response(reply) if transient_of(outcome) == Some(Transient::RateLimited) => {
                wait_ms == 1000 * (match reset_time(reply.ratelimit_reset) {
                    Some(at) => clamped(at - now, 1, 60),
                    None => 5,
                })
            },
            _ => wait_ms == 500 * pow2(number),
        }),
{
}

/// A failure that cannot pass ends the request at once: whichever call it
/// comes from, no pause follows and no further call.
pub proof fn lemma_fatal_returns_at_once(number: nat, outcome: Outcome, now: int)
    requires
        fatal_of(outcome) is Some,
    ensures
        decide(number, outcome, now) == (Decision::Fail {
            wait_ms: 0,
            error: fatal_of(outcome)->0,
        }),
{
}

/// No request makes more than [`MAX_RETRIES`] calls, whatever they end in.
pub proof fn lemma_calls_bounded(number: nat, events: Seq<(Outcome, int)>)
    requires
        number < MAX_RETRIES,
    ensures
        number + calls_made(number, events) <= MAX_RETRIES,
    decreases events.len(),
{
    if events.len() > 0 {
        match decide(number, events[0].0, events[0].1) {
            Decision::Send { number: next, .. } => {
                lemma_calls_bounded(next, events.drop_first());
            },
            _ => {},
        }
    }
}

/// Where every call fails in a way that may pass, the request makes exactly
/// [`MAX_RETRIES`] calls and then fails with what the last call failed with.
pub proof fn lemma_exhaustion(number: nat, events: Seq<(Outcome, int)>)
    requires
        number < MAX_RETRIES,
        number + events.len() >= MAX_RETRIES,
        forall|i: int| 0 <= i < events.len() ==> transient_of(#[trigger] events[i].0) is Some,
    ensures
        number + calls_made(number, events) == MAX_RETRIES,
        ending(number, events) matches Some(Decision::Fail { error, .. }) && error == (
        RequestError::ExhaustedRetries {
            last: transient_of(events[MAX_RETRIES - number - 1].0),
        }),
    decreases events.len(),
{
    assert(transient_of(events[0].0) is Some);
    if number + 1 < MAX_RETRIES {
        let rest = events.drop_first();
        assert forall|i: int| 0 <= i < rest.len() implies transient_of(
            #[trigger] rest[i].0,
        ) is Some by {
            assert(rest[i] == events[i + 1]);
        }
        lemma_exhaustion(number + 1, rest);
        assert(rest[MAX_RETRIES - (number + 1) - 1] == events[MAX_RETRIES - number - 1]);
    }
}

} // verus!
