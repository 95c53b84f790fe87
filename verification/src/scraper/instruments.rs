use crate::scraper::pipeline::Outcome;
use metrics_runtime::data::{Counter, Gauge, Histogram};
use metrics_runtime::{BuilderError, Controller, Receiver, Sink};
use std::time::Instant;
use vstd::prelude::*;

verus! {

#[verifier::external_type_specification]
#[verifier::external_body]
pub struct ExReceiver(Receiver);

#[verifier::external_type_specification]
#[verifier::external_body]
pub struct ExBuilderError(BuilderError);

#[verifier::external_type_specification]
#[verifier::external_body]
pub struct ExSink(Sink);

#[verifier::external_type_specification]
#[verifier::external_body]
pub struct ExController(Controller);

#[verifier::external_type_specification]
#[verifier::external_body]
pub struct ExCounter(Counter);

#[verifier::external_type_specification]
#[verifier::external_body]
pub struct ExGauge(Gauge);

#[verifier::external_type_specification]
#[verifier::external_body]
pub struct ExHistogram(Histogram);

#[verifier::external_type_specification]
#[verifier::external_body]
pub struct ExInstant(Instant);

/// The kinds of instrument that a metrics registry keeps apart.
#[derive(Clone, Copy, Debug, PartialEq, Eq, Structural)]
pub enum InstrumentKind {
    /// A counter: a sum that only grows.
    Tally,
    /// A gauge: a value that is set.
    Level,
    /// A histogram: the spread of the values recorded.
    Spread,
    /// A proxy: a function that is asked for its measurements.
    Proxy,
}

/// An instrument as a metrics registry knows it: its kind, its name, and its labels, each a
/// key with its value, in their order.
pub struct Instrument {
    pub kind: InstrumentKind,
    pub name: Seq<char>,
    pub labels: Seq<(Seq<char>, Seq<char>)>,
}

/// The instruments that every topic has.
#[derive(Clone, Copy, Debug, PartialEq, Eq, Structural)]
pub enum Meter {
    /// The counter of messages with content that were stored.
    TweetsProcessed,
    /// The gauge of messages that the upstream held back.
    TweetsQueued,
    /// The gauge of how full the upstream's queue for the client is, in percent.
    StallLevel,
    /// The histogram of the time taken to treat a message with content.
    ProcessingTime,
    /// The histogram of the time taken to store a sample.
    StorageTime,
}

/// What one payload makes the instruments of its topic record, the time taken apart.
#[derive(Clone, Copy, Debug, PartialEq, Eq, Structural)]
pub enum Reading {
    /// The counter `meter` grows by `by`.
    Counted { meter: Meter, by: u64 },
    /// The gauge `meter` is set to `at`.
    Gauged { meter: Meter, at: i64 },
}

/// What a payload with the outcome `outcome` makes the instruments record: a stored sample
/// counts as one processed message, a rate-limit notice sets the gauge of queued messages,
/// a stall warning sets the gauge of the stall level, and nothing else is recorded.
pub open spec fn reading_of(outcome: Outcome) -> Option<Reading> {
    match outcome {
        Outcome::Stored(_) => Some(Reading::Counted { meter: Meter::TweetsProcessed, by: 1 }),
        Outcome::QueueDepth(depth) => Some(
            Reading::Gauged { meter: Meter::TweetsQueued, at: depth },
        ),
        Outcome::StallLevel(level) => Some(Reading::Gauged { meter: Meter::StallLevel, at: level }),
        Outcome::Disconnected | Outcome::Dropped | Outcome::Refused => None,
    }
}

/// The instruments that `sink` holds handles of: those that were asked for through it since
/// it was made.
pub uninterp spec fn held_by(sink: Sink) -> Set<Instrument>;

/// The labels that `sink` adds, after the labels given, to every instrument that is asked
/// for through it.
pub uninterp spec fn default_labels_of(sink: Sink) -> Seq<(Seq<char>, Seq<char>)>;

/// Whether a histogram can be made in the registry of `receiver`: the receiver was built
/// with a histogram granularity above zero and a histogram window longer than it, as it is
/// with the default settings.
pub uninterp spec fn histograms_fit(receiver: Receiver) -> bool;

/// Whether a histogram can be made in the registry that `sink` writes into: what
/// `histograms_fit` says of the receiver that the sink comes from.
pub uninterp spec fn sink_histograms_fit(sink: Sink) -> bool;

/// The instrument of kind `kind` and name `name` with the one label `label`, whose value is
/// `value`, as a sink with the default labels `defaults` registers it.
pub open spec fn labelled(
    kind: InstrumentKind,
    name: Seq<char>,
    label: Seq<char>,
    value: Seq<char>,
    defaults: Seq<(Seq<char>, Seq<char>)>,
) -> Instrument {
    Instrument { kind, name, labels: seq![(label, value)] + defaults }
}

/// The instrument `meter` of `topic`, labelled with the topic, as a sink with the default
/// labels `defaults` registers it.
pub open spec fn instrument_of(
    meter: Meter,
    topic: Seq<char>,
    defaults: Seq<(Seq<char>, Seq<char>)>,
) -> Instrument {
    labelled(meter.kind_view(), meter.name_view(), "topic"@, topic, defaults)
}

/// The five instruments of `topic`, each labelled with the topic: the counter of processed
/// messages, the gauges of queued messages and of the stall level, and the histograms of
/// processing and storage time.
pub open spec fn instruments_of(
    topic: Seq<char>,
    defaults: Seq<(Seq<char>, Seq<char>)>,
) -> Set<Instrument> {
    set![
        instrument_of(Meter::TweetsProcessed, topic, defaults),
        instrument_of(Meter::TweetsQueued, topic, defaults),
        instrument_of(Meter::StallLevel, topic, defaults),
        instrument_of(Meter::ProcessingTime, topic, defaults),
        instrument_of(Meter::StorageTime, topic, defaults),
    ]
}

impl Meter {
    /// The name of the instrument in the registry.
    pub open spec fn name_view(&self) -> Seq<char> {
        match self {
            Meter::TweetsProcessed => "tweets_processed"@,
            Meter::TweetsQueued => "tweets_queued"@,
            Meter::StallLevel => "stall_level"@,
            Meter::ProcessingTime => "processing_time"@,
            Meter::StorageTime => "storage_time"@,
        }
    }

    /// The kind of the instrument.
    pub open spec fn kind_view(&self) -> InstrumentKind {
        match self {
            Meter::TweetsProcessed => InstrumentKind::Tally,
            Meter::TweetsQueued | Meter::StallLevel => InstrumentKind::Level,
            Meter::ProcessingTime | Meter::StorageTime => InstrumentKind::Spread,
        }
    }

    /// The name of the instrument in the registry.
    pub fn name(&self) -> (name: &'static str)
        ensures
            name@ == self.name_view(),
    {
        match self {
            Meter::TweetsProcessed => "tweets_processed",
            Meter::TweetsQueued => "tweets_queued",
            Meter::StallLevel => "stall_level",
            Meter::ProcessingTime => "processing_time",
            Meter::StorageTime => "storage_time",
        }
    }

    /// The kind of the instrument.
    pub fn kind(&self) -> (kind: InstrumentKind)
        ensures
            kind == self.kind_view(),
    {
        match self {
            Meter::TweetsProcessed => InstrumentKind::Tally,
            Meter::TweetsQueued | Meter::StallLevel => InstrumentKind::Level,
            Meter::ProcessingTime | Meter::StorageTime => InstrumentKind::Spread,
        }
    }
}

/// Tells what a payload with the outcome `outcome` makes the instruments of its topic
/// record: which instrument, and which value.
pub fn reading(outcome: &Outcome) -> (reading: Option<Reading>)
    ensures
        reading == reading_of(*outcome),
{
    match outcome {
        Outcome::Stored(_) => Some(Reading::Counted { meter: Meter::TweetsProcessed, by: 1 }),
        Outcome::QueueDepth(depth) => Some(
            Reading::Gauged { meter: Meter::TweetsQueued, at: *depth },
        ),
        Outcome::StallLevel(level) => Some(
            Reading::Gauged { meter: Meter::StallLevel, at: *level },
        ),
        Outcome::Disconnected | Outcome::Dropped | Outcome::Refused => None,
    }
}

/// `Instant::now` of std reads the monotonic clock. Nothing is claimed of the instant.
pub assume_specification[ Instant::now ]() -> Instant
;

/// `Receiver::sink` of `metrics_runtime` hands out a sink that writes into the receiver's
/// registry, and so makes histograms with the receiver's settings. The sink is new: it
/// holds no handle yet and adds no label of its own.
pub assume_specification[ Receiver::sink ](receiver: &Receiver) -> (sink: Sink)
    ensures
        held_by(sink) == Set::<Instrument>::empty(),
        default_labels_of(sink) == Seq::<(Seq<char>, Seq<char>)>::empty(),
        sink_histograms_fit(sink) == histograms_fit(*receiver),
;

/// `Receiver::controller` of `metrics_runtime` hands out a controller that reads the
/// receiver's registry. Nothing is claimed of the controller.
pub assume_specification[ Receiver::controller ](receiver: &Receiver) -> Controller
;

/// `Counter::record` of `metrics_runtime` adds `value` to the counter behind the handle.
/// The counter is shared with its readers, so nothing is claimed of it.
pub assume_specification[ Counter::record ](counter: &Counter, value: u64)
;

/// `Gauge::record` of `metrics_runtime` sets the gauge behind the handle to `value`.
/// The gauge is shared with its readers, so nothing is claimed of it.
pub assume_specification[ Gauge::record ](gauge: &Gauge, value: i64)
;

/// Builds a receiver with `metrics_runtime`'s default settings, through `Receiver::builder`
/// and `Builder::build`. The build starts a thread that keeps the receiver's clock, and
/// fails where that thread cannot be started; nothing is claimed of which it is. A receiver
/// that was built has the default histogram settings, a window of ten seconds and a
/// granularity of one, with which histograms can be made.
#[verifier::external_body]
pub(crate) fn build_receiver() -> (built: Result<Receiver, BuilderError>)
    ensures
        match built {
            Ok(receiver) => histograms_fit(receiver),
            Err(_) => true,
        },
{
    Receiver::builder().build()
}

/// Calls `Sink::counter_with_labels` of `metrics_runtime` for the counter `name` with the
/// one label `label`, whose value is `value`.
///
/// The contract claims what the call does to the sink: the sink looks the counter up under
/// its name and its labels, those given first and then the sink's own, keeps the handle
/// that it hands out, and leaves its own labels and its registry's settings alone. Nothing
/// is claimed of the handle.
#[verifier::external_body]
fn labelled_counter(sink: &mut Sink, name: &str, label: &str, value: &str) -> (counter: Counter)
    ensures
        held_by(*final(sink)) == held_by(*old(sink)).insert(
            labelled(
                InstrumentKind::Tally,
                name@,
                label@,
                value@,
                default_labels_of(*old(sink)),
            ),
        ),
        default_labels_of(*final(sink)) == default_labels_of(*old(sink)),
        sink_histograms_fit(*final(sink)) == sink_histograms_fit(*old(sink)),
{
    sink.counter_with_labels(name.to_owned(), &[(label.to_owned(), value.to_owned())])
}

/// Calls `Sink::gauge_with_labels` of `metrics_runtime` for the gauge `name` with the one
/// label `label`, whose value is `value`.
///
/// The contract claims what the call does to the sink: the sink looks the gauge up under
/// its name and its labels, those given first and then the sink's own, keeps the handle
/// that it hands out, and leaves its own labels and its registry's settings alone. Nothing
/// is claimed of the handle.
#[verifier::external_body]
fn labelled_gauge(sink: &mut Sink, name: &str, label: &str, value: &str) -> (gauge: Gauge)
    ensures
        held_by(*final(sink)) == held_by(*old(sink)).insert(
            labelled(
                InstrumentKind::Level,
                name@,
                label@,
                value@,
                default_labels_of(*old(sink)),
            ),
        ),
        default_labels_of(*final(sink)) == default_labels_of(*old(sink)),
        sink_histograms_fit(*final(sink)) == sink_histograms_fit(*old(sink)),
{
    sink.gauge_with_labels(name.to_owned(), &[(label.to_owned(), value.to_owned())])
}

/// Calls `Sink::histogram_with_labels` of `metrics_runtime` for the histogram `name` with
/// the one label `label`, whose value is `value`.
///
/// The contract claims what the call does to the sink: the sink looks the histogram up
/// under its name and its labels, those given first and then the sink's own, keeps the
/// handle that it hands out, and leaves its own labels and its registry's settings alone.
/// Nothing is claimed of the handle. A histogram that is new to the registry is made with
/// the registry's settings, and `metrics_runtime` stops the program where the window is no
/// longer than the granularity or the granularity is zero: the call is for sinks whose
/// registry can make histograms.
#[verifier::external_body]
fn labelled_histogram(sink: &mut Sink, name: &str, label: &str, value: &str) -> (histogram:
    Histogram)
    requires
        sink_histograms_fit(*old(sink)),
    ensures
        held_by(*final(sink)) == held_by(*old(sink)).insert(
            labelled(
                InstrumentKind::Spread,
                name@,
                label@,
                value@,
                default_labels_of(*old(sink)),
            ),
        ),
        default_labels_of(*final(sink)) == default_labels_of(*old(sink)),
        sink_histograms_fit(*final(sink)),
{
    sink.histogram_with_labels(name.to_owned(), &[(label.to_owned(), value.to_owned())])
}

/// Calls `Histogram::record_timing` of `metrics_runtime`, which records the nanoseconds from
/// `start` to `end`; std takes the difference and gives zero where `end` is the earlier of
/// the two. The histogram is shared with its readers, so nothing is claimed of it.
#[verifier::external_body]
fn record_timing(histogram: &Histogram, start: Instant, end: Instant) {
    histogram.record_timing(start, end)
}

/// A counter of the registry, with the instrument that it was registered as.
pub struct CounterDial {
    meter: Meter,
    handle: Counter,
}

/// A gauge of the registry, with the instrument that it was registered as.
pub struct GaugeDial {
    meter: Meter,
    handle: Gauge,
}

/// A histogram of the registry, with the instrument that it was registered as.
pub struct TimeDial {
    meter: Meter,
    handle: Histogram,
}

/// The instruments of one topic: handles into the metrics registry, labelled with the topic,
/// each kept with the instrument that it was registered as.
pub struct TopicInstruments {
    tweets_processed: CounterDial,
    tweets_queued: GaugeDial,
    stall_level: GaugeDial,
    processing_time: TimeDial,
    storage_time: TimeDial,
}

impl CounterDial {
    /// Registers the counter `meter` of `topic` through `sink`.
    fn register(sink: &mut Sink, meter: Meter, topic: &str) -> (dial: CounterDial)
        requires
            meter.kind_view() == InstrumentKind::Tally,
        ensures
            dial.meter == meter,
            held_by(*final(sink)) == held_by(*old(sink)).insert(
                instrument_of(meter, topic@, default_labels_of(*old(sink))),
            ),
            default_labels_of(*final(sink)) == default_labels_of(*old(sink)),
            sink_histograms_fit(*final(sink)) == sink_histograms_fit(*old(sink)),
    {
        CounterDial { meter, handle: labelled_counter(sink, meter.name(), "topic", topic) }
    }

    /// Lets the counter grow by `by`, for a reading of the instrument `meter`, which must
    /// be the one that the counter was registered as.
    fn grow(&self, meter: Meter, by: u64)
        requires
            meter == self.meter,
    {
        self.handle.record(by)
    }
}

impl GaugeDial {
    /// Registers the gauge `meter` of `topic` through `sink`.
    fn register(sink: &mut Sink, meter: Meter, topic: &str) -> (dial: GaugeDial)
        requires
            meter.kind_view() == InstrumentKind::Level,
        ensures
            dial.meter == meter,
            held_by(*final(sink)) == held_by(*old(sink)).insert(
                instrument_of(meter, topic@, default_labels_of(*old(sink))),
            ),
            default_labels_of(*final(sink)) == default_labels_of(*old(sink)),
            sink_histograms_fit(*final(sink)) == sink_histograms_fit(*old(sink)),
    {
        GaugeDial { meter, handle: labelled_gauge(sink, meter.name(), "topic", topic) }
    }

    /// Sets the gauge to `at`, for a reading of the instrument `meter`, which must be the
    /// one that the gauge was registered as.
    fn set_to(&self, meter: Meter, at: i64)
        requires
            meter == self.meter,
    {
        self.handle.record(at)
    }
}

impl TimeDial {
    /// Registers the histogram `meter` of `topic` through `sink`.
    fn register(sink: &mut Sink, meter: Meter, topic: &str) -> (dial: TimeDial)
        requires
            meter.kind_view() == InstrumentKind::Spread,
            sink_histograms_fit(*old(sink)),
        ensures
            dial.meter == meter,
            held_by(*final(sink)) == held_by(*old(sink)).insert(
                instrument_of(meter, topic@, default_labels_of(*old(sink))),
            ),
            default_labels_of(*final(sink)) == default_labels_of(*old(sink)),
            sink_histograms_fit(*final(sink)),
    {
        TimeDial { meter, handle: labelled_histogram(sink, meter.name(), "topic", topic) }
    }

    /// Records the time from `start` to now, for the instrument `meter`, which must be the
    /// one that the histogram was registered as.
    fn time_since(&self, meter: Meter, start: Instant)
        requires
            meter == self.meter,
    {
        record_timing(&self.handle, start, Instant::now());
    }
}

impl TopicInstruments {
    /// Whether each handle is kept with the instrument whose place it stands in.
    pub closed spec fn wf(&self) -> bool {
        &&& self.tweets_processed.meter == Meter::TweetsProcessed
        &&& self.tweets_queued.meter == Meter::TweetsQueued
        &&& self.stall_level.meter == Meter::StallLevel
        &&& self.processing_time.meter == Meter::ProcessingTime
        &&& self.storage_time.meter == Meter::StorageTime
    }

    /// Registers the five instruments of `topic` through `sink`, each labelled with the
    /// topic: afterwards the sink holds them beside what it held before. The registry that
    /// the sink writes into must be one that can make histograms.
    pub(crate) fn register(sink: &mut Sink, topic: &str) -> (instruments: TopicInstruments)
        requires
            sink_histograms_fit(*old(sink)),
        ensures
            instruments.wf(),
            held_by(*final(sink)) == held_by(*old(sink)).union(
                instruments_of(topic@, default_labels_of(*old(sink))),
            ),
            default_labels_of(*final(sink)) == default_labels_of(*old(sink)),
            sink_histograms_fit(*final(sink)),
    {
        let tweets_queued = GaugeDial::register(sink, Meter::TweetsQueued, topic);
        let stall_level = GaugeDial::register(sink, Meter::StallLevel, topic);
        let processing_time = TimeDial::register(sink, Meter::ProcessingTime, topic);
        let tweets_processed = CounterDial::register(sink, Meter::TweetsProcessed, topic);
        let storage_time = TimeDial::register(sink, Meter::StorageTime, topic);
        TopicInstruments {
            tweets_processed,
            tweets_queued,
            stall_level,
            processing_time,
            storage_time,
        }
    }

    /// Records what became of one payload, as `reading` tells it, each value on the handle
    /// of the instrument that the reading names, and returns the reading.
    pub(crate) fn record(&self, outcome: &Outcome) -> (recorded: Option<Reading>)
        requires
            self.wf(),
        ensures
            recorded == reading_of(*outcome),
    {
        let recorded = reading(outcome);
        match recorded {
            Some(Reading::Counted { meter, by }) => match meter {
                Meter::TweetsProcessed => self.tweets_processed.grow(meter, by),
                _ => {},
            },
            Some(Reading::Gauged { meter, at }) => match meter {
                Meter::TweetsQueued => self.tweets_queued.set_to(meter, at),
                Meter::StallLevel => self.stall_level.set_to(meter, at),
                _ => {},
            },
            None => {},
        }
        recorded
    }

    /// Records the time taken since `start` to process one payload.
    pub(crate) fn record_processing(&self, start: Instant)
        requires
            self.wf(),
    {
        self.processing_time.time_since(Meter::ProcessingTime, start);
    }

    /// Records the time taken since `start` to store one sample.
    pub(crate) fn record_storage(&self, start: Instant)
        requires
            self.wf(),
    {
        self.storage_time.time_since(Meter::StorageTime, start);
    }
}

} // verus!
