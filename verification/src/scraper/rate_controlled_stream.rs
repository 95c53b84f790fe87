use crate::scraper::policy::{
    action_for, after_rate_limits, class_of, classify, decide, hits_after, is_fatal_code,
    lemma_hits_after_rate_limits, rate_limit_delay, Action, BackoffState, StatusClass,
    RATE_LIMIT_STEP_SECONDS, RETRY_WINDOW_SECONDS,
};
use vstd::prelude::*;

verus! {

/// Why a stream stopped for good.
#[derive(Clone, Copy, Debug, PartialEq, Eq, Structural)]
pub enum TerminationReason {
    /// The upstream answered with this fatal status code.
    Fatal(u16),
    /// The supervisor asked the stream to stop.
    Cancelled,
}

/// Where a managed stream stands.
#[derive(Clone, Copy, Debug, PartialEq, Eq, Structural)]
pub enum StreamStatus {
    /// A connection is live and is being read.
    Streaming,
    /// No connection is live; a new one is opened once the clock reaches `deadline`.
    WaitingToReconnect { deadline: u64 },
    /// The stream has stopped and never reconnects.
    Terminated { reason: TerminationReason },
}

/// What the driver of a stream observed.
#[derive(Clone, Copy, Debug, PartialEq, Eq, Structural)]
pub enum StreamEvent {
    /// The live connection yielded a payload.
    Item,
    /// The live connection ended without an error.
    EndOfStream,
    /// The live connection failed with this status code.
    Failed(u16),
    /// Nothing arrived; the clock was read.
    Tick,
    /// The supervisor asked the stream to stop.
    Cancel,
}

/// What the driver of a stream does next.
#[derive(Clone, Copy, Debug, PartialEq, Eq, Structural)]
pub enum StreamCommand {
    /// Hand the payload just received on, then go on reading.
    Deliver,
    /// Go on reading from the live connection.
    Read,
    /// Drop the connection, if any, and suspend until the clock reaches `until`.
    Sleep { until: u64 },
    /// Open a new connection for the same topic.
    Connect,
    /// Tell the supervisor that the stream has stopped, and stop.
    Stop { reason: TerminationReason },
    /// Nothing: the stream stopped earlier.
    Idle,
}

/// One step of a managed stream: where it stands afterwards and what its driver does.
pub struct Transition {
    pub status: StreamStatus,
    pub backoff: BackoffState,
    pub command: StreamCommand,
}

/// The resilient stream of one topic: the state that decides when its connection is read,
/// dropped, reopened or given up.
pub struct RateLimitedStream {
    topic: String,
    status: StreamStatus,
    backoff: BackoffState,
}

/// How a stream that has not stopped handles a failure with status code `code` at time `now`.
///
/// `resume` is the command that lets the stream go on as before.
pub open spec fn after_failure(
    status: StreamStatus,
    backoff: BackoffState,
    resume: StreamCommand,
    code: u16,
    now: u64,
) -> Transition {
    let hits = backoff.consecutive_limit_hits;
    let next = BackoffState { consecutive_limit_hits: hits_after(class_of(code), hits) };
    match action_for(class_of(code), hits) {
        Action::KeepStreaming => Transition { status, backoff: next, command: resume },
        Action::ReconnectImmediately => Transition {
            status: StreamStatus::WaitingToReconnect { deadline: now },
            backoff: next,
            command: StreamCommand::Sleep { until: now },
        },
        Action::ReconnectAfter(seconds) => Transition {
            status: StreamStatus::WaitingToReconnect { deadline: (now + seconds) as u64 },
            backoff: next,
            command: StreamCommand::Sleep { until: (now + seconds) as u64 },
        },
        Action::Terminate(_) => Transition {
            status: StreamStatus::Terminated { reason: TerminationReason::Fatal(code) },
            backoff: next,
            command: StreamCommand::Stop { reason: TerminationReason::Fatal(code) },
        },
    }
}

/// The step that a stream in `status` with history `backoff` takes on `event` at time `now`.
///
/// A stopped stream stays as it is. A request to stop ends any other stream at once. A
/// failure follows the reconnect policy, whether a connection is live or the stream waits,
/// so that a fatal status code ends the stream in either state. While a connection is live,
/// a payload is handed on and clears the backoff history, and a clean end asks for a new
/// connection without delay. While the stream waits, the clock alone opens the new
/// connection; payloads and clean ends of a connection that was dropped are discarded.
pub open spec fn transition(
    status: StreamStatus,
    backoff: BackoffState,
    event: StreamEvent,
    now: u64,
) -> Transition {
    let stopped = StreamStatus::Terminated { reason: TerminationReason::Cancelled };
    match status {
        StreamStatus::Terminated { .. } => Transition {
            status,
            backoff,
            command: StreamCommand::Idle,
        },
        StreamStatus::Streaming => match event {
            StreamEvent::Item => Transition {
                status,
                backoff: BackoffState { consecutive_limit_hits: 0 },
                command: StreamCommand::Deliver,
            },
            StreamEvent::EndOfStream => Transition {
                status: StreamStatus::WaitingToReconnect { deadline: now },
                backoff,
                command: StreamCommand::Sleep { until: now },
            },
            StreamEvent::Failed(code) => after_failure(
                status,
                backoff,
                StreamCommand::Read,
                code,
                now,
            ),
            StreamEvent::Tick => Transition { status, backoff, command: StreamCommand::Read },
            StreamEvent::Cancel => Transition {
                status: stopped,
                backoff,
                command: StreamCommand::Stop { reason: TerminationReason::Cancelled },
            },
        },
        StreamStatus::WaitingToReconnect { deadline } => match event {
            StreamEvent::Item | StreamEvent::EndOfStream => Transition {
                status,
                backoff,
                command: StreamCommand::Sleep { until: deadline },
            },
            StreamEvent::Failed(code) => after_failure(
                status,
                backoff,
                StreamCommand::Sleep { until: deadline },
                code,
                now,
            ),
            StreamEvent::Tick => if now >= deadline {
                Transition {
                    status: StreamStatus::Streaming,
                    backoff,
                    command: StreamCommand::Connect,
                }
            } else {
                Transition { status, backoff, command: StreamCommand::Sleep { until: deadline } }
            },
            StreamEvent::Cancel => Transition {
                status: stopped,
                backoff,
                command: StreamCommand::Stop { reason: TerminationReason::Cancelled },
            },
        },
    }
}

/// Whether the step on `event` at time `now` can be counted and timed in 64 bits.
///
/// Only a failure that earns a wait can fall outside: its deadline is `now` plus the wait.
pub open spec fn step_fits(
    status: StreamStatus,
    backoff: BackoffState,
    event: StreamEvent,
    now: u64,
) -> bool {
    match (status, event) {
        (StreamStatus::Terminated { .. }, _) => true,
        (_, StreamEvent::Failed(code)) => match class_of(code) {
            StatusClass::RateLimited => now + rate_limit_delay(backoff.consecutive_limit_hits)
                <= u64::MAX,
            StatusClass::RetryWindowExpired => now + RETRY_WINDOW_SECONDS <= u64::MAX,
            _ => true,
        },
        _ => true,
    }
}

/// Where a stream stands, and with which history, once it has taken the steps for
/// `events` in turn, each event with the time at which it was observed.
pub open spec fn ends_in(
    status: StreamStatus,
    backoff: BackoffState,
    events: Seq<(StreamEvent, u64)>,
) -> (StreamStatus, BackoffState)
    decreases events.len(),
{
    if events.len() == 0 {
        (status, backoff)
    } else {
        let first = transition(status, backoff, events[0].0, events[0].1);
        ends_in(first.status, first.backoff, events.drop_first())
    }
}

/// What the driver of a stream observes while the upstream keeps answering with the
/// rate-limit status `code` and no payload comes through: for each of `times` in turn the
/// connection fails at that time, and the clock is read when the wait is over. `done` is
/// the number of rate-limit signals that came in a row before.
pub open spec fn limit_rounds(done: nat, times: Seq<u64>, code: u16) -> Seq<(StreamEvent, u64)>
    decreases times.len(),
{
    if times.len() == 0 {
        Seq::empty()
    } else {
        seq![
            (StreamEvent::Failed(code), times[0]),
            (StreamEvent::Tick, (times[0] + 60 * (done + 1)) as u64),
        ] + limit_rounds(done + 1, times.drop_first(), code)
    }
}

/// Whether the deadline of every round of `limit_rounds` fits in 64 bits.
pub open spec fn rounds_fit(done: nat, times: Seq<u64>) -> bool {
    forall|i: int| 0 <= i < times.len() ==> #[trigger] times[i] + 60 * (done + i + 1) <= u64::MAX
}

/// Whether a connection is live once the driver has done as `command` says, where `live`
/// tells whether one was live before.
pub open spec fn live_after(live: bool, command: StreamCommand) -> bool {
    match command {
        StreamCommand::Connect => true,
        StreamCommand::Sleep { .. } | StreamCommand::Stop { .. } => false,
        StreamCommand::Deliver | StreamCommand::Read | StreamCommand::Idle => live,
    }
}

/// The commands that a stream gives, one for each of `events` in turn, each event with the
/// time at which it was observed.
pub open spec fn commands(
    status: StreamStatus,
    backoff: BackoffState,
    events: Seq<(StreamEvent, u64)>,
) -> Seq<StreamCommand>
    decreases events.len(),
{
    if events.len() == 0 {
        Seq::empty()
    } else {
        let first = transition(status, backoff, events[0].0, events[0].1);
        seq![first.command] + commands(first.status, first.backoff, events.drop_first())
    }
}

impl RateLimitedStream {
    /// The topic that the stream subscribes to.
    pub closed spec fn topic_view(&self) -> Seq<char> {
        self.topic@
    }

    /// Where the stream stands.
    pub closed spec fn status_view(&self) -> StreamStatus {
        self.status
    }

    /// The backoff history of the stream.
    pub closed spec fn backoff_view(&self) -> BackoffState {
        self.backoff
    }

    /// A stream for `topic` whose first connection is taken to be live, with no backoff
    /// history.
    pub fn from_topic(topic: String) -> (stream: RateLimitedStream)
        ensures
            stream.topic_view() == topic@,
            stream.status_view() == StreamStatus::Streaming,
            stream.backoff_view().consecutive_limit_hits == 0,
    {
        RateLimitedStream { topic, status: StreamStatus::Streaming, backoff: BackoffState::new() }
    }

    /// The topic that the stream subscribes to.
    pub fn topic(&self) -> (topic: &String)
        ensures
            topic@ == self.topic_view(),
    {
        &self.topic
    }

    /// Where the stream stands.
    pub fn status(&self) -> (status: StreamStatus)
        ensures
            status == self.status_view(),
    {
        self.status
    }

    /// The backoff history of the stream.
    pub fn backoff(&self) -> (backoff: BackoffState)
        ensures
            backoff == self.backoff_view(),
    {
        self.backoff
    }

    /// Tells whether the stream has stopped for good.
    pub fn is_terminated(&self) -> (stopped: bool)
        ensures
            stopped == (self.status_view() is Terminated),
    {
        match self.status {
            StreamStatus::Terminated { .. } => true,
            _ => false,
        }
    }

    /// Tells whether `step` can be called with `event` at time `now`.
    pub fn can_step(&self, event: StreamEvent, now: u64) -> (fits: bool)
        ensures
            fits == step_fits(self.status_view(), self.backoff_view(), event, now),
    {
        match (self.status, event) {
            (StreamStatus::Terminated { .. }, _) => true,
            (_, StreamEvent::Failed(code)) => match classify(code) {
                StatusClass::RateLimited => {
                    let hits: u64 = self.backoff.consecutive_limit_hits;
                    hits < (u64::MAX - now) / RATE_LIMIT_STEP_SECONDS
                },
                StatusClass::RetryWindowExpired => now <= u64::MAX - RETRY_WINDOW_SECONDS,
                _ => true,
            },
            _ => true,
        }
    }

    /// Takes the step for `event`, observed at time `now` (in seconds), and says what the
    /// driver does next.
    pub fn step(&mut self, event: StreamEvent, now: u64) -> (command: StreamCommand)
        requires
            step_fits(old(self).status_view(), old(self).backoff_view(), event, now),
        ensures
            final(self).topic_view() == old(self).topic_view(),
            final(self).status_view() == transition(
                old(self).status_view(),
                old(self).backoff_view(),
                event,
                now,
            ).status,
            final(self).backoff_view() == transition(
                old(self).status_view(),
                old(self).backoff_view(),
                event,
                now,
            ).backoff,
            command == transition(
                old(self).status_view(),
                old(self).backoff_view(),
                event,
                now,
            ).command,
    {
        match self.status {
            StreamStatus::Terminated { .. } => StreamCommand::Idle,
            StreamStatus::Streaming => match event {
                StreamEvent::Item => {
                    self.backoff.reset();
                    StreamCommand::Deliver
                },
                StreamEvent::EndOfStream => self.wait_until(now),
                StreamEvent::Failed(code) => self.fail(StreamCommand::Read, code, now),
                StreamEvent::Tick => StreamCommand::Read,
                StreamEvent::Cancel => self.stop(TerminationReason::Cancelled),
            },
            StreamStatus::WaitingToReconnect { deadline } => match event {
                StreamEvent::Item | StreamEvent::EndOfStream => StreamCommand::Sleep {
                    until: deadline,
                },
                StreamEvent::Failed(code) => self.fail(
                    StreamCommand::Sleep { until: deadline },
                    code,
                    now,
                ),
                StreamEvent::Tick => if now >= deadline {
                    self.status = StreamStatus::Streaming;
                    StreamCommand::Connect
                } else {
                    StreamCommand::Sleep { until: deadline }
                },
                StreamEvent::Cancel => self.stop(TerminationReason::Cancelled),
            },
        }
    }

    /// Drops the connection and waits until `deadline`.
    fn wait_until(&mut self, deadline: u64) -> (command: StreamCommand)
        ensures
            final(self).topic == old(self).topic,
            final(self).backoff == old(self).backoff,
            final(self).status == (StreamStatus::WaitingToReconnect { deadline }),
            command == (StreamCommand::Sleep { until: deadline }),
    {
        self.status = StreamStatus::WaitingToReconnect { deadline };
        StreamCommand::Sleep { until: deadline }
    }

    /// Stops the stream for good.
    fn stop(&mut self, reason: TerminationReason) -> (command: StreamCommand)
        ensures
            final(self).topic == old(self).topic,
            final(self).backoff == old(self).backoff,
            final(self).status == (StreamStatus::Terminated { reason }),
            command == (StreamCommand::Stop { reason }),
    {
        self.status = StreamStatus::Terminated { reason };
        StreamCommand::Stop { reason }
    }

    /// Applies the reconnect policy to a failure with status code `code`.
    fn fail(&mut self, resume: StreamCommand, code: u16, now: u64) -> (command: StreamCommand)
        requires
            !(old(self).status is Terminated),
            step_fits(old(self).status, old(self).backoff, StreamEvent::Failed(code), now),
        ensures
            final(self).topic == old(self).topic,
            final(self).status == after_failure(
                old(self).status,
                old(self).backoff,
                resume,
                code,
                now,
            ).status,
            final(self).backoff == after_failure(
                old(self).status,
                old(self).backoff,
                resume,
                code,
                now,
            ).backoff,
            command == after_failure(
                old(self).status,
                old(self).backoff,
                resume,
                code,
                now,
            ).command,
    {
        let action = decide(classify(code), &mut self.backoff);
        match action {
            Action::KeepStreaming => resume,
            Action::ReconnectImmediately => self.wait_until(now),
            Action::ReconnectAfter(seconds) => self.wait_until(now + seconds),
            Action::Terminate(_) => self.stop(TerminationReason::Fatal(code)),
        }
    }
}

/// A stream gives one command for each event.
pub proof fn lemma_commands_len(
    status: StreamStatus,
    backoff: BackoffState,
    events: Seq<(StreamEvent, u64)>,
)
    ensures
        commands(status, backoff, events).len() == events.len(),
    decreases events.len(),
{
    if events.len() > 0 {
        let first = transition(status, backoff, events[0].0, events[0].1);
        lemma_commands_len(first.status, first.backoff, events.drop_first());
    }
}

/// A stopped stream answers every event with `Idle`.
pub proof fn lemma_stopped_stream_is_idle(
    status: StreamStatus,
    backoff: BackoffState,
    events: Seq<(StreamEvent, u64)>,
    at: int,
)
    requires
        status is Terminated,
        0 <= at < events.len(),
    ensures
        commands(status, backoff, events).len() == events.len(),
        commands(status, backoff, events)[at] == StreamCommand::Idle,
    decreases events.len(),
{
    lemma_commands_len(status, backoff, events);
    if at > 0 {
        let first = transition(status, backoff, events[0].0, events[0].1);
        lemma_commands_len(first.status, first.backoff, events.drop_first());
        lemma_stopped_stream_is_idle(first.status, first.backoff, events.drop_first(), at - 1);
    }
}

/// A delivered item clears the backoff history at once, so that the next rate-limit signal
/// waits sixty seconds again, whatever the history was.
pub proof fn law_delivered_item_resets_backoff(
    backoff: BackoffState,
    now: u64,
    code: u16,
    later: u64,
)
    requires
        code == 420 || code == 429,
        later + 60 <= u64::MAX,
    ensures
        ({
            let delivered = transition(StreamStatus::Streaming, backoff, StreamEvent::Item, now);
            let limited = transition(
                delivered.status,
                delivered.backoff,
                StreamEvent::Failed(code),
                later,
            );
            &&& delivered.command == StreamCommand::Deliver
            &&& delivered.status == StreamStatus::Streaming
            &&& delivered.backoff.consecutive_limit_hits == 0
            &&& step_fits(delivered.status, delivered.backoff, StreamEvent::Failed(code), later)
            &&& limited.command == (StreamCommand::Sleep { until: (later + 60) as u64 })
            &&& limited.status == (StreamStatus::WaitingToReconnect {
                deadline: (later + 60) as u64,
            })
            &&& limited.backoff.consecutive_limit_hits == 1
        }),
{
}

/// A payload is handed on only when it arrives on the live connection: every `Deliver`
/// answers an `Item` received while streaming.
pub proof fn law_deliver_answers_live_item(
    status: StreamStatus,
    backoff: BackoffState,
    event: StreamEvent,
    now: u64,
)
    ensures
        transition(status, backoff, event, now).command == StreamCommand::Deliver <==> status
            == StreamStatus::Streaming && event == StreamEvent::Item,
{
}

/// Each of the codes 400, 401, 403, 404, 406 and 422 stops a stream that has not stopped
/// yet, whatever its status and history, and the code is the reason.
pub proof fn law_fatal_code_stops_stream(
    status: StreamStatus,
    backoff: BackoffState,
    code: u16,
    now: u64,
)
    requires
        !(status is Terminated),
        is_fatal_code(code),
    ensures
        step_fits(status, backoff, StreamEvent::Failed(code), now),
        transition(status, backoff, StreamEvent::Failed(code), now).status == (
        StreamStatus::Terminated { reason: TerminationReason::Fatal(code) }),
        transition(status, backoff, StreamEvent::Failed(code), now).command == (
        StreamCommand::Stop { reason: TerminationReason::Fatal(code) }),
{
}

/// A request to stop ends a stream that has not stopped yet at once, also while it waits
/// for a deadline that is still far off.
pub proof fn law_cancel_stops_at_once(status: StreamStatus, backoff: BackoffState, now: u64)
    requires
        !(status is Terminated),
    ensures
        step_fits(status, backoff, StreamEvent::Cancel, now),
        transition(status, backoff, StreamEvent::Cancel, now).status == (
        StreamStatus::Terminated { reason: TerminationReason::Cancelled }),
        transition(status, backoff, StreamEvent::Cancel, now).command == (
        StreamCommand::Stop { reason: TerminationReason::Cancelled }),
{
}

/// A stopped stream never leaves that state: no event changes it, and none is answered
/// with anything but `Idle`.
pub proof fn law_terminated_is_absorbing(
    reason: TerminationReason,
    backoff: BackoffState,
    event: StreamEvent,
    now: u64,
)
    ensures
        step_fits(StreamStatus::Terminated { reason }, backoff, event, now),
        transition(StreamStatus::Terminated { reason }, backoff, event, now).status == (
        StreamStatus::Terminated { reason }),
        transition(StreamStatus::Terminated { reason }, backoff, event, now).backoff == backoff,
        transition(StreamStatus::Terminated { reason }, backoff, event, now).command
            == StreamCommand::Idle,
{
}

/// The command tells where the stream stands afterwards: `Deliver`, `Read` and `Connect`
/// leave it streaming, `Sleep` leaves it waiting for the deadline named, `Stop` and `Idle`
/// leave it stopped. A connection is opened only for a stream that waited, so that no topic
/// ever has two.
pub proof fn law_command_matches_status(
    status: StreamStatus,
    backoff: BackoffState,
    event: StreamEvent,
    now: u64,
)
    ensures
        ({
            let next = transition(status, backoff, event, now);
            &&& next.status == StreamStatus::Streaming <==> next.command == StreamCommand::Deliver
                || next.command == StreamCommand::Read || next.command == StreamCommand::Connect
            &&& next.status is WaitingToReconnect <==> next.command is Sleep
            &&& next.command is Sleep ==> next.status == (StreamStatus::WaitingToReconnect {
                deadline: next.command->until,
            })
            &&& next.status is Terminated <==> next.command is Stop || next.command
                == StreamCommand::Idle
            &&& next.command == StreamCommand::Connect ==> status is WaitingToReconnect
        }),
{
}

/// A topic has at most one live connection: a connection is live exactly while the stream
/// is streaming, and a new one is opened only when none is live.
pub proof fn law_one_connection_per_topic(
    status: StreamStatus,
    backoff: BackoffState,
    live: bool,
    event: StreamEvent,
    now: u64,
)
    requires
        live == (status == StreamStatus::Streaming),
    ensures
        live_after(live, transition(status, backoff, event, now).command) == (transition(
            status,
            backoff,
            event,
            now,
        ).status == StreamStatus::Streaming),
        transition(status, backoff, event, now).command == StreamCommand::Connect ==> !live,
{
}

/// The n-th rate-limit signal in a row makes a stream that has not stopped sleep for
/// `60 * n` seconds from the time of the signal, for every `n >= 1` whose deadline fits in
/// 64 bits.
pub proof fn law_nth_rate_limit_sleeps_sixty_n(status: StreamStatus, n: nat, code: u16, now: u64)
    requires
        !(status is Terminated),
        code == 420 || code == 429,
        n >= 1,
        now + 60 * n <= u64::MAX,
    ensures
        step_fits(status, after_rate_limits((n - 1) as nat), StreamEvent::Failed(code), now),
        transition(
            status,
            after_rate_limits((n - 1) as nat),
            StreamEvent::Failed(code),
            now,
        ).command == (StreamCommand::Sleep { until: (now + 60 * n) as u64 }),
        transition(
            status,
            after_rate_limits((n - 1) as nat),
            StreamEvent::Failed(code),
            now,
        ).backoff == after_rate_limits(n),
{
    lemma_hits_after_rate_limits((n - 1) as nat);
    lemma_hits_after_rate_limits(n);
}

/// While the upstream keeps answering with a rate-limit status and no payload comes
/// through, a streaming stream waits sixty seconds longer each time: the signal of round
/// `round`, counted from zero after `done` earlier signals, makes it sleep for
/// `60 * (done + round + 1)` seconds, the clock at the deadline makes it connect again,
/// and after the last round it is streaming with all the signals counted. A fresh stream
/// is the case of `done` zero: its n-th signal waits `60 * n` seconds.
pub proof fn law_rate_limit_rounds(done: nat, times: Seq<u64>, code: u16, round: int)
    requires
        code == 420 || code == 429,
        rounds_fit(done, times),
        0 <= round < times.len(),
    ensures
        ({
            let fresh = after_rate_limits(done);
            let events = limit_rounds(done, times, code);
            let given = commands(StreamStatus::Streaming, fresh, events);
            &&& fresh.consecutive_limit_hits == done
            &&& events.len() == 2 * times.len()
            &&& given.len() == 2 * times.len()
            &&& given[2 * round] == (StreamCommand::Sleep {
                until: (times[round] + 60 * (done + round + 1)) as u64,
            })
            &&& given[2 * round + 1] == StreamCommand::Connect
            &&& ends_in(StreamStatus::Streaming, fresh, events) == (
                StreamStatus::Streaming,
                after_rate_limits(done + times.len()),
            )
            &&& after_rate_limits(done + times.len()).consecutive_limit_hits == done
                + times.len()
        }),
    decreases times.len(),
{
    let fresh = after_rate_limits(done);
    let events = limit_rounds(done, times, code);
    let rest_times = times.drop_first();
    let rest = limit_rounds(done + 1, rest_times, code);
    let deadline = (times[0] + 60 * (done + 1)) as u64;
    assert(times[0] + 60 * (done + 0 + 1) <= u64::MAX);
    lemma_hits_after_rate_limits(done);
    lemma_hits_after_rate_limits(done + 1);
    let failed = transition(StreamStatus::Streaming, fresh, StreamEvent::Failed(code), times[0]);
    assert(failed.command == (StreamCommand::Sleep { until: deadline }));
    assert(failed.status == (StreamStatus::WaitingToReconnect { deadline }));
    assert(failed.backoff == after_rate_limits(done + 1));
    let ticked = transition(failed.status, failed.backoff, StreamEvent::Tick, deadline);
    assert(ticked.command == StreamCommand::Connect);
    assert(ticked.status == StreamStatus::Streaming);
    assert(ticked.backoff == after_rate_limits(done + 1));
    assert(events[0] == (StreamEvent::Failed(code), times[0]));
    assert(events[1] == (StreamEvent::Tick, deadline));
    assert(events.drop_first()[0] == (StreamEvent::Tick, deadline));
    assert(events.drop_first().drop_first() == rest);
    let tail = commands(StreamStatus::Streaming, after_rate_limits(done + 1), rest);
    let later = events.drop_first();
    assert(events.len() == 2 + rest.len());
    assert(later.len() == 1 + rest.len());
    assert(commands(StreamStatus::Streaming, fresh, events) == seq![failed.command] + commands(
        failed.status,
        failed.backoff,
        later,
    ));
    assert(commands(failed.status, failed.backoff, later) == seq![ticked.command] + tail);
    assert(ends_in(StreamStatus::Streaming, fresh, events) == ends_in(
        failed.status,
        failed.backoff,
        later,
    ));
    assert(ends_in(failed.status, failed.backoff, later) == ends_in(
        StreamStatus::Streaming,
        after_rate_limits(done + 1),
        rest,
    ));
    lemma_commands_len(StreamStatus::Streaming, after_rate_limits(done + 1), rest);
    if rest_times.len() > 0 {
        assert forall|i: int| 0 <= i < rest_times.len() implies #[trigger] rest_times[i] + 60 * (
        done + 1 + i + 1) <= u64::MAX by {
            assert(rest_times[i] == times[i + 1]);
            assert(times[i + 1] + 60 * (done + (i + 1) + 1) <= u64::MAX);
        }
        let next = if round > 0 {
            round - 1
        } else {
            0
        };
        law_rate_limit_rounds(done + 1, rest_times, code, next);
        if round > 0 {
            assert(rest_times[round - 1] == times[round]);
            assert(tail[2 * (round - 1)] == (StreamCommand::Sleep {
                until: (times[round] + 60 * (done + round + 1)) as u64,
            }));
        }
        assert(done + 1 + rest_times.len() == done + times.len());
    } else {
        assert(rest =~= Seq::<(StreamEvent, u64)>::empty());
        assert(done + 1 == done + times.len());
    }
}

/// `Stop` is given exactly when a stream passes into `Terminated`.
pub proof fn law_stop_marks_termination(
    status: StreamStatus,
    backoff: BackoffState,
    event: StreamEvent,
    now: u64,
)
    ensures
        transition(status, backoff, event, now).command is Stop <==> !(status is Terminated)
            && transition(status, backoff, event, now).status is Terminated,
        transition(status, backoff, event, now).command is Stop ==> transition(
            status,
            backoff,
            event,
            now,
        ).status == (StreamStatus::Terminated {
            reason: transition(status, backoff, event, now).command->reason,
        }),
{
}

/// Termination is reported once: after a `Stop`, every later event of the same stream is
/// answered with `Idle`.
pub proof fn law_stop_is_reported_once(
    status: StreamStatus,
    backoff: BackoffState,
    events: Seq<(StreamEvent, u64)>,
    earlier: int,
    later: int,
)
    requires
        0 <= earlier < later < events.len(),
        commands(status, backoff, events)[earlier] is Stop,
    ensures
        commands(status, backoff, events).len() == events.len(),
        commands(status, backoff, events)[later] == StreamCommand::Idle,
    decreases events.len(),
{
    lemma_commands_len(status, backoff, events);
    let first = transition(status, backoff, events[0].0, events[0].1);
    let rest = events.drop_first();
    lemma_commands_len(first.status, first.backoff, rest);
    if earlier == 0 {
        lemma_stopped_stream_is_idle(first.status, first.backoff, rest, later - 1);
    } else {
        law_stop_is_reported_once(first.status, first.backoff, rest, earlier - 1, later - 1);
    }
}

} // verus!
