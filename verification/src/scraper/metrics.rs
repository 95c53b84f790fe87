use crate::scraper::sentiment::Value;
use vstd::prelude::*;

verus! {

/// Room reserved for samples when a time series is made.
pub const DEFAULT_TIMESERIES_SIZE: usize = 10000;

/// Time series sample for sentiment tracking.
#[derive(Debug, PartialEq, Eq, Copy, Clone, Structural)]
pub struct Sample {
    /// Epoch time, in seconds.
    pub time: i64,
    /// Sentiment score.
    pub value: Value,
}

/// The samples of one topic, in the order in which they arrived.
///
/// The series only grows: samples are added at its end and never changed, moved or removed.
pub struct TimeSeries {
    topic: String,
    data: Vec<Sample>,
}

/// One use of a time series: a writer adds a sample, or a reader takes a snapshot.
pub enum StoreOp {
    Append(Sample),
    Snapshot,
}

/// The samples held once `ops` have been carried out, in turn, on a series that held `start`.
pub open spec fn contents_after(start: Seq<Sample>, ops: Seq<StoreOp>) -> Seq<Sample>
    decreases ops.len(),
{
    if ops.len() == 0 {
        start
    } else {
        match ops[0] {
            StoreOp::Append(sample) => contents_after(start.push(sample), ops.drop_first()),
            StoreOp::Snapshot => contents_after(start, ops.drop_first()),
        }
    }
}

/// The snapshots that the readers among `ops` get, in turn, from a series that held `start`.
pub open spec fn snapshots_during(start: Seq<Sample>, ops: Seq<StoreOp>) -> Seq<Seq<Sample>>
    decreases ops.len(),
{
    if ops.len() == 0 {
        Seq::empty()
    } else {
        match ops[0] {
            StoreOp::Append(sample) => snapshots_during(start.push(sample), ops.drop_first()),
            StoreOp::Snapshot => seq![start] + snapshots_during(start, ops.drop_first()),
        }
    }
}

/// The samples that the writers among `ops` add, in turn.
pub open spec fn appended_by(ops: Seq<StoreOp>) -> Seq<Sample>
    decreases ops.len(),
{
    if ops.len() == 0 {
        Seq::empty()
    } else {
        match ops[0] {
            StoreOp::Append(sample) => seq![sample] + appended_by(ops.drop_first()),
            StoreOp::Snapshot => appended_by(ops.drop_first()),
        }
    }
}

impl View for TimeSeries {
    type V = Seq<Sample>;

    closed spec fn view(&self) -> Seq<Sample> {
        self.data@
    }
}

impl TimeSeries {
    /// The topic whose samples the series holds.
    pub closed spec fn topic_view(&self) -> Seq<char> {
        self.topic@
    }

    /// An empty series for `topic`.
    pub fn new(topic: &str) -> (series: TimeSeries)
        ensures
            series.topic_view() == topic@,
            series@ == Seq::<Sample>::empty(),
    {
        TimeSeries { topic: topic.to_owned(), data: Vec::with_capacity(DEFAULT_TIMESERIES_SIZE) }
    }

    /// The topic whose samples the series holds.
    pub fn topic(&self) -> (topic: &String)
        ensures
            topic@ == self.topic_view(),
    {
        &self.topic
    }

    /// The number of samples held.
    pub fn len(&self) -> (count: usize)
        ensures
            count == self@.len(),
    {
        self.data.len()
    }

    /// Adds `sample` at the end of the series.
    pub fn append(&mut self, sample: Sample)
        ensures
            final(self)@ == old(self)@.push(sample),
            final(self).topic_view() == old(self).topic_view(),
    {
        self.data.push(sample);
    }

    /// A copy of all the samples held, in arrival order.
    pub fn snapshot(&self) -> (samples: Vec<Sample>)
        ensures
            samples@ == self@,
    {
        let mut samples: Vec<Sample> = Vec::with_capacity(self.data.len());
        let mut at: usize = 0;
        while at < self.data.len()
            invariant
                at <= self.data.len(),
                samples@ == self.data@.take(at as int),
            decreases self.data.len() - at,
        {
            samples.push(self.data[at]);
            at += 1;
        }
        samples
    }
}

/// A series that held `start` still begins with `start` after any appends and snapshots.
pub proof fn lemma_contents_grow(start: Seq<Sample>, ops: Seq<StoreOp>)
    ensures
        start.is_prefix_of(contents_after(start, ops)),
        contents_after(start, ops) == start + appended_by(ops),
    decreases ops.len(),
{
    if ops.len() > 0 {
        match ops[0] {
            StoreOp::Append(sample) => {
                lemma_contents_grow(start.push(sample), ops.drop_first());
                assert(start + (seq![sample] + appended_by(ops.drop_first())) == start.push(
                    sample,
                ) + appended_by(ops.drop_first()));
            },
            StoreOp::Snapshot => {
                lemma_contents_grow(start, ops.drop_first());
            },
        }
    } else {
        assert(start + Seq::<Sample>::empty() == start);
    }
}

/// However appends and snapshots are interleaved, every snapshot is a prefix, in arrival
/// order, of what the series holds in the end, and a series that started empty holds in the
/// end exactly the samples that were appended, each once and in the order of arrival.
pub proof fn law_snapshots_are_prefixes(ops: Seq<StoreOp>, at: int)
    requires
        0 <= at < snapshots_during(Seq::empty(), ops).len(),
    ensures
        contents_after(Seq::empty(), ops) == appended_by(ops),
        snapshots_during(Seq::empty(), ops)[at].is_prefix_of(appended_by(ops)),
{
    lemma_contents_grow(Seq::empty(), ops);
    assert(Seq::<Sample>::empty() + appended_by(ops) == appended_by(ops));
    lemma_snapshot_is_prefix(Seq::empty(), ops, at);
}

/// Every snapshot taken during `ops` is a prefix of what the series holds after `ops`.
pub proof fn lemma_snapshot_is_prefix(start: Seq<Sample>, ops: Seq<StoreOp>, at: int)
    requires
        0 <= at < snapshots_during(start, ops).len(),
    ensures
        snapshots_during(start, ops)[at].is_prefix_of(contents_after(start, ops)),
    decreases ops.len(),
{
    match ops[0] {
        StoreOp::Append(sample) => {
            lemma_snapshot_is_prefix(start.push(sample), ops.drop_first(), at);
        },
        StoreOp::Snapshot => {
            if at == 0 {
                lemma_contents_grow(start, ops.drop_first());
            } else {
                lemma_snapshot_is_prefix(start, ops.drop_first(), at - 1);
            }
        },
    }
}

} // verus!
