use crate::scraper::instruments::{
    default_labels_of, held_by, instruments_of, sink_histograms_fit, TopicInstruments,
};
use crate::scraper::metrics::{Sample, TimeSeries};
use crate::scraper::pipeline::{digest, outcome_of, Outcome};
use crate::scraper::policy::BackoffState;
use crate::scraper::rate_controlled_stream::{
    step_fits, transition, RateLimitedStream, StreamCommand, StreamEvent, StreamStatus,
    TerminationReason,
};
use crate::tweet::Tweet;
use chrono::Utc;
use metrics_runtime::Sink;
use std::time::Instant;
use vstd::prelude::*;

verus! {

/// What a topic's worker is, seen as plain values.
pub struct WorkerView {
    pub topic: Seq<char>,
    pub status: StreamStatus,
    pub backoff: BackoffState,
    pub samples: Seq<Sample>,
}

/// The samples of one topic as they were when the snapshot was taken.
#[derive(Debug, Clone)]
pub struct Series {
    pub topic: String,
    pub data: Vec<Sample>,
}

/// A snapshot, seen as plain values.
pub struct SeriesView {
    pub topic: Seq<char>,
    pub data: Seq<Sample>,
}

/// One topic: its managed stream, the series that its pipeline fills, and its instruments.
pub struct TopicWorker {
    stream: RateLimitedStream,
    series: TimeSeries,
    instruments: TopicInstruments,
}

/// The worker of a topic that was just subscribed to: streaming, with no backoff history
/// and no samples.
pub open spec fn fresh_worker(topic: Seq<char>) -> WorkerView {
    WorkerView {
        topic,
        status: StreamStatus::Streaming,
        backoff: BackoffState { consecutive_limit_hits: 0 },
        samples: Seq::empty(),
    }
}

/// The worker after its stream took the step for `event` at time `now`.
pub open spec fn after_event(worker: WorkerView, event: StreamEvent, now: u64) -> WorkerView {
    WorkerView {
        status: transition(worker.status, worker.backoff, event, now).status,
        backoff: transition(worker.status, worker.backoff, event, now).backoff,
        ..worker
    }
}

/// What becomes of a payload handed to `worker`: a worker whose stream has stopped refuses
/// it, any other worker treats it by what it was decoded to.
pub open spec fn outcome_for(
    worker: WorkerView,
    decoded: Option<Tweet>,
    arrival: i64,
) -> Outcome {
    if worker.status is Terminated {
        Outcome::Refused
    } else {
        outcome_of(decoded, arrival)
    }
}

/// The worker after a payload with the outcome `outcome`: a stored sample stands at the end
/// of its series, and nothing else has changed.
pub open spec fn after_outcome(worker: WorkerView, outcome: Outcome) -> WorkerView {
    match outcome {
        Outcome::Stored(sample) => WorkerView { samples: worker.samples.push(sample), ..worker },
        _ => worker,
    }
}

/// The snapshot that a reader gets of the worker.
pub open spec fn snapshot_of(worker: WorkerView) -> SeriesView {
    SeriesView { topic: worker.topic, data: worker.samples }
}

/// The worker once it was made to stop: a stream that had not stopped is cancelled.
pub open spec fn stopped(worker: WorkerView) -> WorkerView {
    if worker.status is Terminated {
        worker
    } else {
        WorkerView {
            status: StreamStatus::Terminated { reason: TerminationReason::Cancelled },
            ..worker
        }
    }
}

/// Reads the clock through `chrono::Utc::now` and returns the seconds since the start of
/// 1970, as `DateTime::timestamp` gives them. Nothing is claimed of the value. chrono stops
/// the program where the system clock stands before 1970 or beyond the years it can express.
#[verifier::external_body]
fn epoch_seconds() -> (seconds: i64) {
    Utc::now().timestamp()
}

impl View for Series {
    type V = SeriesView;

    open spec fn view(&self) -> SeriesView {
        SeriesView { topic: self.topic@, data: self.data@ }
    }
}

impl View for TopicWorker {
    type V = WorkerView;

    closed spec fn view(&self) -> WorkerView {
        WorkerView {
            topic: self.stream.topic_view(),
            status: self.stream.status_view(),
            backoff: self.stream.backoff_view(),
            samples: self.series@,
        }
    }
}

impl TopicWorker {
    /// Whether the stream and the series of the worker stand for the same topic, and its
    /// instruments are in order.
    pub closed spec fn wf(&self) -> bool {
        &&& self.series.topic_view() == self.stream.topic_view()
        &&& self.instruments.wf()
    }

    /// A worker for `topic` whose instruments are registered through `sink`: afterwards the
    /// sink holds the five instruments of the topic beside what it held before. The registry
    /// that the sink writes into must be one that can make histograms, as every registry
    /// with the default settings is.
    pub fn new(topic: String, sink: &mut Sink) -> (worker: TopicWorker)
        requires
            sink_histograms_fit(*old(sink)),
        ensures
            worker.wf(),
            worker@ == fresh_worker(topic@),
            held_by(*final(sink)) == held_by(*old(sink)).union(
                instruments_of(topic@, default_labels_of(*old(sink))),
            ),
            default_labels_of(*final(sink)) == default_labels_of(*old(sink)),
            sink_histograms_fit(*final(sink)),
    {
        let instruments = TopicInstruments::register(sink, topic.as_str());
        let series = TimeSeries::new(topic.as_str());
        TopicWorker { stream: RateLimitedStream::from_topic(topic), series, instruments }
    }

    /// The topic of the worker.
    pub fn topic(&self) -> (topic: &String)
        ensures
            topic@ == self@.topic,
    {
        self.stream.topic()
    }

    /// Where the stream of the worker stands.
    pub fn status(&self) -> (status: StreamStatus)
        ensures
            status == self@.status,
    {
        self.stream.status()
    }

    /// The backoff history of the worker's stream.
    pub fn backoff(&self) -> (backoff: BackoffState)
        ensures
            backoff == self@.backoff,
    {
        self.stream.backoff()
    }

    /// Tells whether the stream of the worker has stopped for good.
    pub fn is_terminated(&self) -> (stopped: bool)
        ensures
            stopped == (self@.status is Terminated),
    {
        self.stream.is_terminated()
    }

    /// Tells whether `handle` can be called with `event` at time `now`.
    pub fn can_handle(&self, event: StreamEvent, now: u64) -> (fits: bool)
        ensures
            fits == step_fits(self@.status, self@.backoff, event, now),
    {
        self.stream.can_step(event, now)
    }

    /// Lets the stream take the step for `event`, observed at time `now`, and says what the
    /// driver does next. The series is left alone.
    pub fn handle(&mut self, event: StreamEvent, now: u64) -> (command: StreamCommand)
        requires
            old(self).wf(),
            step_fits(old(self)@.status, old(self)@.backoff, event, now),
        ensures
            final(self).wf(),
            final(self)@ == after_event(old(self)@, event, now),
            command == transition(old(self)@.status, old(self)@.backoff, event, now).command,
    {
        self.stream.step(event, now)
    }

    /// Treats one payload that arrived at `arrival` and was decoded to `decoded`, where
    /// `None` stands for a payload that could not be decoded: the sample of a message with
    /// content is added to the series, and the instruments record what `reading` tells of
    /// the outcome, and the time taken where a sample is stored.
    pub fn ingest(&mut self, decoded: &Option<Tweet>, arrival: i64) -> (outcome: Outcome)
        requires
            old(self).wf(),
        ensures
            final(self).wf(),
            outcome == outcome_for(old(self)@, *decoded, arrival),
            final(self)@ == after_outcome(old(self)@, outcome),
    {
        if self.stream.is_terminated() {
            return Outcome::Refused;
        }
        let started = Instant::now();
        let outcome = digest(decoded, arrival);
        self.instruments.record(&outcome);
        match outcome {
            Outcome::Stored(sample) => {
                self.instruments.record_processing(started);
                let storing = Instant::now();
                self.series.append(sample);
                self.instruments.record_storage(storing);
            },
            _ => {},
        }
        outcome
    }

    /// Treats one payload as `ingest` does, with the time read from the clock as its
    /// arrival.
    pub fn ingest_now(&mut self, decoded: &Option<Tweet>) -> (outcome: Outcome)
        requires
            old(self).wf(),
        ensures
            final(self).wf(),
            exists|arrival: i64|
                outcome == #[trigger] outcome_for(old(self)@, *decoded, arrival),
            final(self)@ == after_outcome(old(self)@, outcome),
    {
        let arrival = epoch_seconds();
        self.ingest(decoded, arrival)
    }

    /// A copy of the samples held, with the topic.
    pub fn snapshot(&self) -> (series: Series)
        ensures
            series@ == snapshot_of(self@),
    {
        Series { topic: self.stream.topic().clone(), data: self.series.snapshot() }
    }

    /// The snapshot for a reader: a copy of the samples held, with the topic, or nothing
    /// where the stream of the worker has stopped.
    pub fn live_snapshot(&self) -> (series: Option<Series>)
        ensures
            match series {
                Some(series) => !(self@.status is Terminated) && series@ == snapshot_of(self@),
                None => self@.status is Terminated,
            },
    {
        if self.stream.is_terminated() {
            None
        } else {
            Some(self.snapshot())
        }
    }

    /// Makes the worker stop: a stream that has not stopped is cancelled. Tells whether it
    /// had to be.
    pub fn force_stop(&mut self) -> (forced: bool)
        requires
            old(self).wf(),
        ensures
            final(self).wf(),
            forced == !(old(self)@.status is Terminated),
            final(self)@ == stopped(old(self)@),
    {
        if self.stream.is_terminated() {
            false
        } else {
            self.stream.step(StreamEvent::Cancel, 0);
            true
        }
    }
}

/// A topic whose stream has stopped takes no sample again: it refuses every payload, and
/// its series stays as it is.
pub proof fn law_stopped_topic_takes_no_samples(
    worker: WorkerView,
    decoded: Option<Tweet>,
    arrival: i64,
)
    requires
        worker.status is Terminated,
    ensures
        outcome_for(worker, decoded, arrival) == Outcome::Refused,
        after_outcome(worker, outcome_for(worker, decoded, arrival)) == worker,
{
}

/// A payload that could not be decoded is dropped and changes nothing, so that the next
/// payload of the topic is treated as if the first had never come.
pub proof fn law_decode_failure_changes_nothing(worker: WorkerView, arrival: i64)
    requires
        !(worker.status is Terminated),
    ensures
        outcome_for(worker, None, arrival) == Outcome::Dropped,
        after_outcome(worker, outcome_for(worker, None, arrival)) == worker,
{
}

} // verus!
