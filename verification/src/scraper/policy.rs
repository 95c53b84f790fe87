use vstd::prelude::*;

verus! {

/// Seconds added to the wait for each consecutive rate-limit signal.
pub const RATE_LIMIT_STEP_SECONDS: u64 = 60;

/// Seconds to wait once the retry window has passed.
pub const RETRY_WINDOW_SECONDS: u64 = 300;

/// How the reconnect policy reads an upstream status.
#[derive(Clone, Copy, Debug, PartialEq, Eq, Structural)]
pub enum StatusClass {
    /// The upstream asks the client to slow down (420, 429).
    RateLimited,
    /// The retry window has passed (304).
    RetryWindowExpired,
    /// The stream is gone; a new connection is wanted at once (410).
    Gone,
    /// A client error that no retry can mend (400, 401, 403, 404, 406, 422).
    FatalClient,
    /// A passing hiccup that carries no status code, such as a connection that ended cleanly.
    Transient,
    /// Any status code that the policy has no rule for.
    Unknown,
}

/// What a stream does after an upstream status.
#[derive(Clone, Copy, Debug, PartialEq, Eq, Structural)]
pub enum Action {
    /// Go on reading from the live connection.
    KeepStreaming,
    /// Open a new connection without waiting.
    ReconnectImmediately,
    /// Open a new connection after this many seconds.
    ReconnectAfter(u64),
    /// Stop for good; the status that caused it is the reason.
    Terminate(StatusClass),
}

/// The backoff history of one stream.
#[derive(Clone, Copy, Debug, PartialEq, Eq, Structural)]
pub struct BackoffState {
    /// Rate-limit signals received in a row since the last delivered item.
    pub consecutive_limit_hits: u64,
}

/// Whether `code` is one of the client errors that end a stream for good.
pub open spec fn is_fatal_code(code: u16) -> bool {
    code == 400 || code == 401 || code == 403 || code == 404 || code == 406 || code == 422
}

/// The class of an upstream status code.
pub open spec fn class_of(code: u16) -> StatusClass {
    if code == 420 || code == 429 {
        StatusClass::RateLimited
    } else if code == 304 {
        StatusClass::RetryWindowExpired
    } else if code == 410 {
        StatusClass::Gone
    } else if is_fatal_code(code) {
        StatusClass::FatalClient
    } else {
        StatusClass::Unknown
    }
}

/// The wait, in seconds, that the next rate-limit signal earns after `hits` earlier ones.
pub open spec fn rate_limit_delay(hits: u64) -> int {
    RATE_LIMIT_STEP_SECONDS * (hits + 1)
}

/// Whether one more rate-limit signal after `hits` earlier ones still fits the counters.
pub open spec fn can_escalate(hits: u64) -> bool {
    rate_limit_delay(hits) <= u64::MAX
}

/// The action that the policy picks for `status` after `hits` consecutive rate-limit signals.
pub open spec fn action_for(status: StatusClass, hits: u64) -> Action {
    match status {
        StatusClass::Gone => Action::ReconnectImmediately,
        StatusClass::RateLimited => Action::ReconnectAfter(rate_limit_delay(hits) as u64),
        StatusClass::RetryWindowExpired => Action::ReconnectAfter(RETRY_WINDOW_SECONDS),
        StatusClass::FatalClient => Action::Terminate(status),
        StatusClass::Transient | StatusClass::Unknown => Action::KeepStreaming,
    }
}

/// The count of consecutive rate-limit signals once `status` has been handled.
pub open spec fn hits_after(status: StatusClass, hits: u64) -> u64 {
    match status {
        StatusClass::Gone => 0,
        StatusClass::RateLimited => (hits + 1) as u64,
        _ => hits,
    }
}

/// The backoff state after `n` rate-limit signals in a row, starting from a fresh stream.
pub open spec fn after_rate_limits(n: nat) -> BackoffState
    decreases n,
{
    if n == 0 {
        BackoffState { consecutive_limit_hits: 0 }
    } else {
        BackoffState {
            consecutive_limit_hits: hits_after(
                StatusClass::RateLimited,
                after_rate_limits((n - 1) as nat).consecutive_limit_hits,
            ),
        }
    }
}

impl BackoffState {
    /// The state of a stream that has seen no rate-limit signal.
    pub fn new() -> (fresh: BackoffState)
        ensures
            fresh.consecutive_limit_hits == 0,
    {
        BackoffState { consecutive_limit_hits: 0 }
    }

    /// Forgets the history, as after a delivered item.
    pub fn reset(&mut self)
        ensures
            final(self).consecutive_limit_hits == 0,
    {
        self.consecutive_limit_hits = 0;
    }

    /// Tells whether one more rate-limit signal can be counted and its wait expressed in seconds.
    pub fn has_headroom(&self) -> (fits: bool)
        ensures
            fits == can_escalate(self.consecutive_limit_hits),
    {
        self.consecutive_limit_hits < u64::MAX / RATE_LIMIT_STEP_SECONDS
    }
}

/// Classifies an upstream status code.
pub fn classify(code: u16) -> (class: StatusClass)
    ensures
        class == class_of(code),
{
    match code {
        420 | 429 => StatusClass::RateLimited,
        304 => StatusClass::RetryWindowExpired,
        410 => StatusClass::Gone,
        400 | 401 | 403 | 404 | 406 | 422 => StatusClass::FatalClient,
        _ => StatusClass::Unknown,
    }
}

/// Picks the action for `status` and brings the backoff history up to date.
///
/// A rate-limit signal waits sixty seconds for each signal received in a row, this one
/// included, and is counted. `Gone` reconnects at once and clears the count. A passed retry
/// window waits three hundred seconds and leaves the count alone, as do a fatal status, which
/// ends the stream, and anything else, which lets it go on.
pub fn decide(status: StatusClass, backoff: &mut BackoffState) -> (action: Action)
    requires
        status == StatusClass::RateLimited ==> can_escalate(old(backoff).consecutive_limit_hits),
    ensures
        action == action_for(status, old(backoff).consecutive_limit_hits),
        final(backoff).consecutive_limit_hits == hits_after(
            status,
            old(backoff).consecutive_limit_hits,
        ),
{
    match status {
        StatusClass::Gone => {
            backoff.consecutive_limit_hits = 0;
            Action::ReconnectImmediately
        },
        StatusClass::RateLimited => {
            let hits: u64 = backoff.consecutive_limit_hits + 1;
            backoff.consecutive_limit_hits = hits;
            Action::ReconnectAfter(RATE_LIMIT_STEP_SECONDS * hits)
        },
        StatusClass::RetryWindowExpired => Action::ReconnectAfter(RETRY_WINDOW_SECONDS),
        StatusClass::FatalClient => Action::Terminate(status),
        StatusClass::Transient | StatusClass::Unknown => Action::KeepStreaming,
    }
}

/// After `n - 1` rate-limit signals in a row the count stands at `n - 1`.
pub proof fn lemma_hits_after_rate_limits(n: nat)
    requires
        RATE_LIMIT_STEP_SECONDS * n <= u64::MAX,
    ensures
        after_rate_limits(n).consecutive_limit_hits == n,
    decreases n,
{
    if n > 0 {
        lemma_hits_after_rate_limits((n - 1) as nat);
    }
}

/// The n-th rate-limit signal in a row, with no delivered item in between, waits `60 * n`
/// seconds, for every `n >= 1` whose wait fits in 64 bits.
pub proof fn law_nth_rate_limit_waits_sixty_n(n: nat)
    requires
        n >= 1,
        RATE_LIMIT_STEP_SECONDS * n <= u64::MAX,
    ensures
        can_escalate(after_rate_limits((n - 1) as nat).consecutive_limit_hits),
        action_for(
            StatusClass::RateLimited,
            after_rate_limits((n - 1) as nat).consecutive_limit_hits,
        ) == Action::ReconnectAfter((60 * n) as u64),
        60 * n <= u64::MAX,
{
    lemma_hits_after_rate_limits((n - 1) as nat);
}

/// The waits of consecutive rate-limit signals grow: a later signal waits longer than an
/// earlier one.
pub proof fn law_rate_limit_waits_increase(m: nat, n: nat)
    requires
        1 <= m < n,
        RATE_LIMIT_STEP_SECONDS * n <= u64::MAX,
    ensures
        rate_limit_delay(after_rate_limits((m - 1) as nat).consecutive_limit_hits)
            < rate_limit_delay(after_rate_limits((n - 1) as nat).consecutive_limit_hits),
{
    lemma_hits_after_rate_limits((m - 1) as nat);
    lemma_hits_after_rate_limits((n - 1) as nat);
}

/// Each further rate-limit signal in a row waits sixty seconds longer than the one before,
/// so that of two signals the later waits longer, whatever the counts; and no wait is
/// capped: wherever the later wait fits in 64 bits, both actions carry their full waits.
pub proof fn law_rate_limit_waits_grow_by_sixty(earlier: u64, later: u64)
    requires
        earlier < later,
    ensures
        rate_limit_delay(earlier) == 60 * (earlier + 1),
        rate_limit_delay((earlier + 1) as u64) - rate_limit_delay(earlier) == 60,
        rate_limit_delay(earlier) < rate_limit_delay(later),
        can_escalate(later) ==> can_escalate(earlier),
        can_escalate(later) ==> action_for(StatusClass::RateLimited, earlier)
            == Action::ReconnectAfter((60 * (earlier + 1)) as u64) && action_for(
            StatusClass::RateLimited,
            later,
        ) == Action::ReconnectAfter((60 * (later + 1)) as u64) && 60 * (earlier + 1) < 60 * (later
            + 1) <= u64::MAX,
        hits_after(StatusClass::RateLimited, earlier) == earlier + 1,
{
}

/// `Gone` reconnects at once and clears the count, whatever the history.
pub proof fn law_gone_reconnects_at_once(hits: u64)
    ensures
        action_for(StatusClass::Gone, hits) == Action::ReconnectImmediately,
        hits_after(StatusClass::Gone, hits) == 0,
{
}

/// A passed retry window waits exactly three hundred seconds and leaves the count alone,
/// whatever the history.
pub proof fn law_retry_window_waits_three_hundred(hits: u64)
    ensures
        action_for(StatusClass::RetryWindowExpired, hits) == Action::ReconnectAfter(300),
        hits_after(StatusClass::RetryWindowExpired, hits) == hits,
{
}

/// Each of the codes 400, 401, 403, 404, 406 and 422 ends the stream, whatever the history.
pub proof fn law_fatal_codes_terminate(code: u16, hits: u64)
    requires
        is_fatal_code(code),
    ensures
        class_of(code) == StatusClass::FatalClient,
        action_for(class_of(code), hits) == Action::Terminate(StatusClass::FatalClient),
        hits_after(class_of(code), hits) == hits,
{
}

} // verus!
