use crate::config::{names_of, ScraperConfig, DEFAULT_BATCH_SIZE};
use crate::scraper::instruments::{build_receiver, histograms_fit};
use crate::scraper::pipeline::Outcome;
use crate::scraper::rate_controlled_stream::{
    step_fits, transition, StreamCommand, StreamEvent, StreamStatus,
};
use crate::scraper::worker::{
    after_event, after_outcome, fresh_worker, outcome_for, snapshot_of, stopped, Series,
    SeriesView, TopicWorker, WorkerView,
};
use crate::tweet::Tweet;
use metrics_runtime::{Controller, Receiver};
use vstd::prelude::*;

pub mod instruments;
pub mod metrics;
pub mod pipeline;
pub mod policy;
pub mod rate_controlled_stream;
pub mod sentiment;
pub mod worker;

verus! {

/// Why a scraper could not be started, or a topic not be added.
#[derive(Clone, Copy, Debug, PartialEq, Eq, Structural)]
pub enum StartError {
    /// The list of topics is empty.
    NoTopics,
    /// A topic occurs twice.
    DuplicateTopic,
    /// The metrics registry could not be started.
    Metrics,
}

/// The supervisor of all topics: it owns one worker for each topic, lets each take its own
/// steps, and stops them together.
pub struct Scraper {
    batch_size: usize,
    requested_workers: Option<usize>,
    workers: Vec<TopicWorker>,
    metrics: Receiver,
}

/// Whether no name occurs twice.
pub open spec fn distinct(names: Seq<Seq<char>>) -> bool {
    forall|i: int, j: int| 0 <= i < j < names.len() ==> names[i] != names[j]
}

/// The topics of the workers, in their order.
pub open spec fn topics_of(workers: Seq<WorkerView>) -> Seq<Seq<char>> {
    Seq::new(workers.len(), |i: int| workers[i].topic)
}

/// The workers of a scraper that was just started for `names`.
pub open spec fn fresh_workers(names: Seq<Seq<char>>) -> Seq<WorkerView> {
    Seq::new(names.len(), |i: int| fresh_worker(names[i]))
}

/// The snapshots that a reader gets: one for each worker whose stream has not stopped, in
/// the order of the workers.
pub open spec fn live_series(workers: Seq<WorkerView>) -> Seq<SeriesView>
    decreases workers.len(),
{
    if workers.len() == 0 {
        Seq::empty()
    } else if workers.last().status is Terminated {
        live_series(workers.drop_last())
    } else {
        live_series(workers.drop_last()).push(snapshot_of(workers.last()))
    }
}

/// Whether `series` is the snapshot of a worker among `workers` whose stream has not
/// stopped.
pub open spec fn shows_running_worker(workers: Seq<WorkerView>, series: SeriesView) -> bool {
    exists|i: int|
        0 <= i < workers.len() && !((#[trigger] workers[i]).status is Terminated) && series
            == snapshot_of(workers[i])
}

/// The topics of the workers whose streams have not stopped, in the order of the workers.
pub open spec fn running_topics(workers: Seq<WorkerView>) -> Seq<Seq<char>>
    decreases workers.len(),
{
    if workers.len() == 0 {
        Seq::empty()
    } else if workers.last().status is Terminated {
        running_topics(workers.drop_last())
    } else {
        running_topics(workers.drop_last()).push(workers.last().topic)
    }
}

/// The workers once each of them was made to stop.
pub open spec fn all_stopped(workers: Seq<WorkerView>) -> Seq<WorkerView> {
    Seq::new(workers.len(), |i: int| stopped(workers[i]))
}

/// The number of worker threads for `topic_count` topics on a machine that runs `available`
/// threads at once: the number asked for, or else two for each topic and no fewer than the
/// machine runs.
pub open spec fn pool_size_of(topic_count: int, available: int, requested: Option<usize>) -> int {
    match requested {
        Some(threads) => threads as int,
        None => if 2 * topic_count >= available {
            2 * topic_count
        } else {
            available
        },
    }
}

/// Calls `num_cpus::get`, the number of logical processors that the program may use.
/// Nothing is claimed of the number.
#[verifier::external_body]
fn available_parallelism() -> (count: usize) {
    num_cpus::get()
}

/// Computes the number of worker threads.
pub fn pool_size(topic_count: usize, available: usize, requested: Option<usize>) -> (threads:
    usize)
    requires
        2 * topic_count <= usize::MAX,
    ensures
        threads == pool_size_of(topic_count as int, available as int, requested),
{
    match requested {
        Some(threads) => threads,
        None => if 2 * topic_count >= available {
            2 * topic_count
        } else {
            available
        },
    }
}

/// Tells whether the bounded wait of a shutdown goes on at time `now`: it does while the
/// deadline has not come and some stream has not stopped.
pub fn wait_goes_on(now: u64, deadline: u64, all_stopped: bool) -> (waiting: bool)
    ensures
        waiting == (now < deadline && !all_stopped),
{
    now < deadline && !all_stopped
}

/// Tells whether a topic occurs twice in `topics`.
pub fn has_duplicates(topics: &Vec<String>) -> (twice: bool)
    ensures
        twice == !distinct(names_of(topics@)),
{
    let ghost names = names_of(topics@);
    let mut upper: usize = 0;
    while upper < topics.len()
        invariant
            upper <= topics.len(),
            names == names_of(topics@),
            forall|i: int, j: int| 0 <= i < j < upper ==> names[i] != names[j],
        decreases topics.len() - upper,
    {
        let mut lower: usize = 0;
        while lower < upper
            invariant
                lower <= upper < topics.len(),
                names == names_of(topics@),
                forall|i: int| 0 <= i < lower ==> names[i] != names[upper as int],
            decreases upper - lower,
        {
            if topics[lower] == topics[upper] {
                assert(names[lower as int] == names[upper as int]);
                return true;
            }
            lower += 1;
        }
        upper += 1;
    }
    false
}

impl View for Scraper {
    type V = Seq<WorkerView>;

    closed spec fn view(&self) -> Seq<WorkerView> {
        Seq::new(self.workers@.len(), |i: int| self.workers@[i]@)
    }
}

impl Scraper {
    /// Whether the scraper is in order: no topic has two workers, and its metrics registry
    /// can make the histograms of a topic that is added.
    pub closed spec fn wf(&self) -> bool {
        &&& forall|i: int| 0 <= i < self.workers@.len() ==> (#[trigger] self.workers@[i]).wf()
        &&& distinct(topics_of(self@))
        &&& histograms_fit(self.metrics)
    }

    /// The receiver that holds the metrics registry of the scraper.
    pub closed spec fn metrics_view(&self) -> Receiver {
        self.metrics
    }

    /// The batch size that the scraper was configured with.
    pub closed spec fn batch_size_view(&self) -> usize {
        self.batch_size
    }

    /// The number of worker threads that the configuration asked for, if it did.
    pub closed spec fn requested_workers_view(&self) -> Option<usize> {
        self.requested_workers
    }

    /// Starts a scraper for the topics of `config`, each with a worker of its own, and the
    /// metrics registry that their instruments write into.
    ///
    /// An empty list of topics and a topic that occurs twice are refused. Whether the
    /// registry can be started is for `metrics_runtime` to say; where it cannot, that is
    /// the error.
    pub fn new(config: ScraperConfig) -> (started: Result<Scraper, StartError>)
        ensures
            match started {
                Ok(scraper) => {
                    &&& config.topics@.len() > 0
                    &&& distinct(names_of(config.topics@))
                    &&& scraper.wf()
                    &&& histograms_fit(scraper.metrics_view())
                    &&& scraper@ == fresh_workers(names_of(config.topics@))
                    &&& scraper.batch_size_view() == match config.batch_size {
                        Some(size) => size,
                        None => DEFAULT_BATCH_SIZE,
                    }
                    &&& scraper.requested_workers_view() == config.workers
                },
                Err(StartError::NoTopics) => config.topics@.len() == 0,
                Err(StartError::DuplicateTopic) => config.topics@.len() > 0 && !distinct(
                    names_of(config.topics@),
                ),
                Err(StartError::Metrics) => config.topics@.len() > 0 && distinct(
                    names_of(config.topics@),
                ),
            },
    {
        if config.topics.len() == 0 {
            return Err(StartError::NoTopics);
        }
        if has_duplicates(&config.topics) {
            return Err(StartError::DuplicateTopic);
        }
        match build_receiver() {
            Ok(receiver) => Scraper::with_receiver(config, receiver),
            Err(_) => Err(StartError::Metrics),
        }
    }

    /// Starts a scraper as `new` does, with `receiver` as its metrics registry, which the
    /// scraper keeps. The receiver must be one whose registry can make histograms, as every
    /// receiver with the default settings is.
    pub fn with_receiver(config: ScraperConfig, receiver: Receiver) -> (started: Result<
        Scraper,
        StartError,
    >)
        requires
            histograms_fit(receiver),
        ensures
            match started {
                Ok(scraper) => {
                    &&& config.topics@.len() > 0
                    &&& distinct(names_of(config.topics@))
                    &&& scraper.wf()
                    &&& scraper.metrics_view() == receiver
                    &&& scraper@ == fresh_workers(names_of(config.topics@))
                    &&& scraper.batch_size_view() == match config.batch_size {
                        Some(size) => size,
                        None => DEFAULT_BATCH_SIZE,
                    }
                    &&& scraper.requested_workers_view() == config.workers
                },
                Err(StartError::NoTopics) => config.topics@.len() == 0,
                Err(StartError::DuplicateTopic) => config.topics@.len() > 0 && !distinct(
                    names_of(config.topics@),
                ),
                Err(StartError::Metrics) => false,
            },
    {
        if config.topics.len() == 0 {
            return Err(StartError::NoTopics);
        }
        if has_duplicates(&config.topics) {
            return Err(StartError::DuplicateTopic);
        }
        let batch_size = match config.batch_size {
            Some(size) => size,
            None => DEFAULT_BATCH_SIZE,
        };
        let mut scraper = Scraper {
            batch_size,
            requested_workers: config.workers,
            workers: Vec::new(),
            metrics: receiver,
        };
        let ghost names = names_of(config.topics@);
        let mut at: usize = 0;
        while at < config.topics.len()
            invariant
                at <= config.topics.len(),
                names == names_of(config.topics@),
                distinct(names),
                scraper.wf(),
                scraper@ == fresh_workers(names.take(at as int)),
                scraper.batch_size == batch_size,
                scraper.requested_workers == config.workers,
                scraper.metrics == receiver,
            decreases config.topics.len() - at,
        {
            let topic = config.topics[at].clone();
            proof {
                assert forall|i: int| 0 <= i < scraper@.len() implies (#[trigger] scraper@[i]).topic
                    != topic@ by {
                    assert(names[i] != names[at as int]);
                }
            }
            scraper.add_worker(topic);
            proof {
                assert(names.take(at as int + 1) == names.take(at as int).push(names[at as int]));
                assert(scraper@ == fresh_workers(names.take(at as int + 1)));
            }
            at += 1;
        }
        proof {
            assert(names.take(at as int) == names);
        }
        Ok(scraper)
    }

    /// Adds a worker for a topic that no worker stands for yet.
    fn add_worker(&mut self, topic: String)
        requires
            old(self).wf(),
            forall|i: int| 0 <= i < old(self)@.len() ==> (#[trigger] old(self)@[i]).topic != topic@,
        ensures
            final(self).wf(),
            final(self)@ == old(self)@.push(fresh_worker(topic@)),
            final(self).batch_size == old(self).batch_size,
            final(self).requested_workers == old(self).requested_workers,
            final(self).metrics == old(self).metrics,
    {
        let mut sink = self.metrics.sink();
        let worker = TopicWorker::new(topic, &mut sink);
        self.workers.push(worker);
        proof {
            assert(self@ == old(self)@.push(fresh_worker(topic@)));
            let before = topics_of(old(self)@);
            let after = topics_of(self@);
            assert forall|i: int, j: int| 0 <= i < j < after.len() implies after[i] != after[j] by {
                if j < before.len() {
                    assert(before[i] != before[j]);
                } else {
                    assert(old(self)@[i].topic != topic@);
                }
            }
        }
    }

    /// The position of the worker for `topic`, if there is one.
    pub fn index_of(&self, topic: &String) -> (found: Option<usize>)
        requires
            self.wf(),
        ensures
            match found {
                Some(index) => index < self@.len() && self@[index as int].topic == topic@,
                None => forall|i: int| 0 <= i < self@.len() ==> (#[trigger] self@[i]).topic
                    != topic@,
            },
    {
        let mut at: usize = 0;
        while at < self.workers.len()
            invariant
                at <= self.workers.len(),
                forall|i: int| 0 <= i < at ==> (#[trigger] self@[i]).topic != topic@,
            decreases self.workers.len() - at,
        {
            if *self.workers[at].topic() == *topic {
                return Some(at);
            }
            at += 1;
        }
        None
    }

    /// Subscribes to a stream of tweets containing the specified topic.
    ///
    /// A topic that the scraper follows already is refused, and the scraper stays as it is.
    pub fn subscribe_to(&mut self, topic: String) -> (added: Result<(), StartError>)
        requires
            old(self).wf(),
        ensures
            final(self).wf(),
            final(self).batch_size_view() == old(self).batch_size_view(),
            final(self).requested_workers_view() == old(self).requested_workers_view(),
            final(self).metrics_view() == old(self).metrics_view(),
            match added {
                Ok(_) => {
                    &&& forall|i: int|
                        0 <= i < old(self)@.len() ==> (#[trigger] old(self)@[i]).topic != topic@
                    &&& final(self)@ == old(self)@.push(fresh_worker(topic@))
                },
                Err(error) => {
                    &&& error == StartError::DuplicateTopic
                    &&& exists|i: int|
                        0 <= i < old(self)@.len() && (#[trigger] old(self)@[i]).topic == topic@
                    &&& final(self)@ == old(self)@
                },
            },
    {
        match self.index_of(&topic) {
            Some(index) => {
                assert(self@[index as int].topic == topic@);
                Err(StartError::DuplicateTopic)
            },
            None => {
                self.add_worker(topic);
                Ok(())
            },
        }
    }

    /// A controller that reads the metrics registry.
    pub fn metrics(&self) -> Controller {
        self.metrics.controller()
    }

    /// The number of topics that the scraper follows.
    pub fn topic_count(&self) -> (count: usize)
        ensures
            count == self@.len(),
    {
        self.workers.len()
    }

    /// The batch size that the scraper was configured with.
    pub fn batch_size(&self) -> (size: usize)
        ensures
            size == self.batch_size_view(),
    {
        self.batch_size
    }

    /// The worker at `index`.
    pub fn worker(&self, index: usize) -> (worker: &TopicWorker)
        requires
            self.wf(),
            index < self@.len(),
        ensures
            worker.wf(),
            worker@ == self@[index as int],
    {
        &self.workers[index]
    }

    /// Parts the scraper into the workers of its topics, in their order, and the receiver
    /// that holds its metrics registry, so that each worker can be given to a task of its
    /// own. The receiver is to be kept for as long as the workers record.
    pub fn into_parts(self) -> (parts: (Vec<TopicWorker>, Receiver))
        requires
            self.wf(),
        ensures
            parts.0@.len() == self@.len(),
            forall|i: int|
                0 <= i < parts.0@.len() ==> (#[trigger] parts.0@[i]).wf() && parts.0@[i]@
                    == self@[i],
            parts.1 == self.metrics_view(),
            histograms_fit(parts.1),
    {
        let Scraper { workers, metrics, .. } = self;
        (workers, metrics)
    }

    /// Lets the stream of the topic at `index` take the step for `event`, observed at time
    /// `now`, and says what its driver does next. Every other topic stays as it is.
    pub fn dispatch(&mut self, index: usize, event: StreamEvent, now: u64) -> (command:
        StreamCommand)
        requires
            old(self).wf(),
            index < old(self)@.len(),
            step_fits(
                old(self)@[index as int].status,
                old(self)@[index as int].backoff,
                event,
                now,
            ),
        ensures
            final(self).wf(),
            final(self).batch_size_view() == old(self).batch_size_view(),
            final(self).requested_workers_view() == old(self).requested_workers_view(),
            final(self).metrics_view() == old(self).metrics_view(),
            final(self)@ == old(self)@.update(
                index as int,
                after_event(old(self)@[index as int], event, now),
            ),
            command == transition(
                old(self)@[index as int].status,
                old(self)@[index as int].backoff,
                event,
                now,
            ).command,
    {
        let command = self.workers[index].handle(event, now);
        proof {
            assert(self@ == old(self)@.update(
                index as int,
                after_event(old(self)@[index as int], event, now),
            ));
            assert(topics_of(self@) == topics_of(old(self)@));
        }
        command
    }
    /// Treats one payload of the topic at `index`, which arrived at `arrival` and was
    /// decoded to `decoded`, where `None` stands for a payload that could not be decoded.
    /// Every other topic stays as it is.
    pub fn ingest(&mut self, index: usize, decoded: &Option<Tweet>, arrival: i64) -> (outcome:
        Outcome)
        requires
            old(self).wf(),
            index < old(self)@.len(),
        ensures
            final(self).wf(),
            final(self).batch_size_view() == old(self).batch_size_view(),
            final(self).requested_workers_view() == old(self).requested_workers_view(),
            final(self).metrics_view() == old(self).metrics_view(),
            outcome == outcome_for(old(self)@[index as int], *decoded, arrival),
            final(self)@ == old(self)@.update(
                index as int,
                after_outcome(old(self)@[index as int], outcome),
            ),
    {
        let outcome = self.workers[index].ingest(decoded, arrival);
        proof {
            assert(self@ == old(self)@.update(
                index as int,
                after_outcome(old(self)@[index as int], outcome),
            ));
            assert(topics_of(self@) == topics_of(old(self)@));
        }
        outcome
    }

    /// Treats one payload as `ingest` does, with the time read from the clock as its
    /// arrival.
    pub fn ingest_now(&mut self, index: usize, decoded: &Option<Tweet>) -> (outcome: Outcome)
        requires
            old(self).wf(),
            index < old(self)@.len(),
        ensures
            final(self).wf(),
            final(self).batch_size_view() == old(self).batch_size_view(),
            final(self).requested_workers_view() == old(self).requested_workers_view(),
            final(self).metrics_view() == old(self).metrics_view(),
            exists|arrival: i64|
                outcome == #[trigger] outcome_for(
                    old(self)@[index as int],
                    *decoded,
                    arrival,
                ),
            final(self)@ == old(self)@.update(
                index as int,
                after_outcome(old(self)@[index as int], outcome),
            ),
    {
        let outcome = self.workers[index].ingest_now(decoded);
        proof {
            assert(self@ == old(self)@.update(
                index as int,
                after_outcome(old(self)@[index as int], outcome),
            ));
            assert(topics_of(self@) == topics_of(old(self)@));
        }
        outcome
    }

    /// The snapshots for a reader: one for each topic whose stream has not stopped, in the
    /// order of the topics.
    pub fn time_series(&self) -> (snapshots: Vec<Series>)
        requires
            self.wf(),
        ensures
            Seq::new(snapshots@.len(), |i: int| snapshots@[i]@) == live_series(self@),
    {
        let mut snapshots: Vec<Series> = Vec::new();
        let mut at: usize = 0;
        while at < self.workers.len()
            invariant
                at <= self.workers.len(),
                Seq::new(snapshots@.len(), |i: int| snapshots@[i]@) == live_series(
                    self@.take(at as int),
                ),
            decreases self.workers.len() - at,
        {
            proof {
                assert(self@.take(at as int + 1).drop_last() == self@.take(at as int));
            }
            match self.workers[at].live_snapshot() {
                Some(series) => snapshots.push(series),
                None => {},
            }
            at += 1;
        }
        proof {
            assert(self@.take(at as int) == self@);
        }
        snapshots
    }

    /// Tells whether every stream has stopped.
    pub fn is_stopped(&self) -> (stopped: bool)
        ensures
            stopped == (forall|i: int|
                0 <= i < self@.len() ==> (#[trigger] self@[i]).status is Terminated),
    {
        let mut at: usize = 0;
        while at < self.workers.len()
            invariant
                at <= self.workers.len(),
                forall|i: int| 0 <= i < at ==> (#[trigger] self@[i]).status is Terminated,
            decreases self.workers.len() - at,
        {
            if !self.workers[at].is_terminated() {
                assert(!(self@[at as int].status is Terminated));
                return false;
            }
            at += 1;
        }
        true
    }

    /// Makes every stream stop that has not stopped, and reports the topics of those
    /// streams, in the order of the topics.
    pub fn shutdown(&mut self) -> (stragglers: Vec<String>)
        requires
            old(self).wf(),
        ensures
            final(self).wf(),
            final(self).batch_size_view() == old(self).batch_size_view(),
            final(self).requested_workers_view() == old(self).requested_workers_view(),
            final(self).metrics_view() == old(self).metrics_view(),
            names_of(stragglers@) == running_topics(old(self)@),
            final(self)@ == all_stopped(old(self)@),
    {
        let ghost before = self@;
        let mut stragglers: Vec<String> = Vec::new();
        let mut at: usize = 0;
        while at < self.workers.len()
            invariant
                at <= self.workers.len(),
                self.wf(),
                self.batch_size == old(self).batch_size,
                self.requested_workers == old(self).requested_workers,
                self.metrics == old(self).metrics,
                before == old(self)@,
                self@.len() == before.len(),
                forall|i: int| 0 <= i < at ==> #[trigger] self@[i] == stopped(before[i]),
                forall|i: int| at <= i < before.len() ==> #[trigger] self@[i] == before[i],
                names_of(stragglers@) == running_topics(before.take(at as int)),
            decreases self.workers.len() - at,
        {
            let ghost current = self@;
            let ghost reported = names_of(stragglers@);
            proof {
                assert(current[at as int] == before[at as int]);
                assert(before.take(at as int + 1).drop_last() == before.take(at as int));
                assert(before.take(at as int + 1).last() == before[at as int]);
            }
            let forced = self.workers[at].force_stop();
            proof {
                assert(self@ == current.update(at as int, stopped(before[at as int])));
                assert(topics_of(self@) == topics_of(current));
            }
            if forced {
                let topic = self.workers[at].topic().clone();
                stragglers.push(topic);
                proof {
                    assert(names_of(stragglers@) == reported.push(before[at as int].topic));
                }
            }
            at += 1;
        }
        proof {
            assert(before.take(at as int) == before);
            assert(self@ == all_stopped(before));
        }
        stragglers
    }

    /// Ends the bounded wait of a shutdown that lasts until `deadline`, read at time `now`.
    ///
    /// While a stream has not stopped and the deadline has not come, the answer is `None`:
    /// the wait goes on, and nothing changes. Otherwise the shutdown is over: every stream
    /// that has not stopped is made to, and the answer holds the topics of those streams.
    pub fn finish_shutdown(&mut self, now: u64, deadline: u64) -> (report: Option<Vec<String>>)
        requires
            old(self).wf(),
        ensures
            final(self).wf(),
            final(self).batch_size_view() == old(self).batch_size_view(),
            final(self).requested_workers_view() == old(self).requested_workers_view(),
            final(self).metrics_view() == old(self).metrics_view(),
            report is None <==> now < deadline && exists|i: int|
                0 <= i < old(self)@.len() && !((#[trigger] old(self)@[i]).status is Terminated),
            match report {
                None => final(self)@ == old(self)@,
                Some(stragglers) => {
                    &&& names_of(stragglers@) == running_topics(old(self)@)
                    &&& final(self)@ == all_stopped(old(self)@)
                },
            },
    {
        if wait_goes_on(now, deadline, self.is_stopped()) {
            None
        } else {
            Some(self.shutdown())
        }
    }

    /// The number of worker threads for the scraper: the number that the configuration
    /// asked for, or else two for each topic and no fewer than the machine runs at once.
    pub fn worker_threads(&self) -> (threads: usize)
        requires
            2 * self@.len() <= usize::MAX,
        ensures
            exists|available: int|
                0 <= available <= usize::MAX && threads == #[trigger] pool_size_of(
                    self@.len() as int,
                    available,
                    self.requested_workers_view(),
                ),
    {
        let available = available_parallelism();
        let threads = pool_size(self.workers.len(), available, self.requested_workers);
        proof {
            assert(threads == pool_size_of(
                self@.len() as int,
                available as int,
                self.requested_workers_view(),
            ));
        }
        threads
    }
}

/// What happens to one topic stays in that topic: a step of the stream at `index`, a fatal
/// status included, leaves every other topic as it was, and so does a payload handed to it.
pub proof fn law_topics_are_isolated(
    workers: Seq<WorkerView>,
    index: int,
    other: int,
    event: StreamEvent,
    now: u64,
    decoded: Option<Tweet>,
    arrival: i64,
)
    requires
        0 <= index < workers.len(),
        0 <= other < workers.len(),
        other != index,
    ensures
        workers.update(index, after_event(workers[index], event, now))[other] == workers[other],
        workers.update(
            index,
            after_outcome(workers[index], outcome_for(workers[index], decoded, arrival)),
        )[other] == workers[other],
{
}

/// A reader sees running topics only: every snapshot is that of a worker whose stream has
/// not stopped, and every such worker has its snapshot.
pub proof fn law_snapshots_show_running_topics(workers: Seq<WorkerView>)
    ensures
        forall|k: int|
            0 <= k < live_series(workers).len() ==> shows_running_worker(
                workers,
                #[trigger] live_series(workers)[k],
            ),
        forall|i: int|
            0 <= i < workers.len() && !((#[trigger] workers[i]).status is Terminated)
                ==> live_series(workers).contains(snapshot_of(workers[i])),
    decreases workers.len(),
{
    if workers.len() > 0 {
        let front = workers.drop_last();
        let last = workers.last();
        law_snapshots_show_running_topics(front);
        assert forall|k: int| 0 <= k < live_series(workers).len() implies shows_running_worker(
            workers,
            #[trigger] live_series(workers)[k],
        ) by {
            if k < live_series(front).len() {
                assert(shows_running_worker(front, live_series(front)[k]));
                let i = choose|i: int|
                    0 <= i < front.len() && !((#[trigger] front[i]).status is Terminated)
                        && live_series(front)[k] == snapshot_of(front[i]);
                assert(workers[i] == front[i]);
            } else {
                assert(workers[workers.len() - 1] == last);
            }
        }
        assert forall|i: int|
            0 <= i < workers.len() && !((#[trigger] workers[i]).status is Terminated)
                implies live_series(workers).contains(snapshot_of(workers[i])) by {
            let wanted = snapshot_of(workers[i]);
            if i < front.len() {
                assert(front[i] == workers[i]);
                assert(live_series(front).contains(wanted));
                let k = choose|k: int|
                    0 <= k < live_series(front).len() && live_series(front)[k] == wanted;
                assert(live_series(workers)[k] == wanted);
            } else {
                assert(live_series(workers)[live_series(front).len() as int] == wanted);
            }
        }
    }
}

} // verus!
