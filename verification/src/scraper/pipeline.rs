use crate::scraper::metrics::Sample;
use crate::scraper::sentiment::{message_value, sentiment_score};
use crate::tweet::Tweet;
use vstd::prelude::*;

verus! {

/// What became of one payload.
#[derive(Clone, Copy, Debug, PartialEq, Eq, Structural)]
pub enum Outcome {
    /// A message with content: this sample was added to the topic's series.
    Stored(Sample),
    /// A rate-limit notice: the `tweets_queued` gauge was set to this value.
    QueueDepth(i64),
    /// A stall warning: the `stall_level` gauge was set to this value.
    StallLevel(i64),
    /// A disconnect notice: it is for the log only.
    Disconnected,
    /// The payload could not be decoded and was dropped.
    Dropped,
    /// The topic's stream has stopped; the payload was not looked at.
    Refused,
}

/// The count of a rate-limit notice as a gauge takes it: the same 64 bits, read as signed.
pub open spec fn gauge_reading(track: u64) -> i64 {
    if track <= i64::MAX {
        track as i64
    } else {
        (track - 0x1_0000_0000_0000_0000) as i64
    }
}

/// What becomes of a payload that arrived at `arrival` and was decoded to `decoded`, where
/// `None` stands for a payload that could not be decoded.
pub open spec fn outcome_of(decoded: Option<Tweet>, arrival: i64) -> Outcome {
    match decoded {
        None => Outcome::Dropped,
        Some(Tweet::Content(content)) => Outcome::Stored(
            Sample { time: arrival, value: sentiment_score(content.text@) },
        ),
        Some(Tweet::ApiLimit(notice)) => Outcome::QueueDepth(gauge_reading(notice.limit.track)),
        Some(Tweet::StallWarning(warning)) => Outcome::StallLevel(warning.percent_full as i64),
        Some(Tweet::Disconnect(_)) => Outcome::Disconnected,
    }
}

/// Reads the count of a rate-limit notice as a signed value.
pub fn queue_depth(track: u64) -> (depth: i64)
    ensures
        depth == gauge_reading(track),
{
    if track <= 0x7fff_ffff_ffff_ffff {
        track as i64
    } else {
        ((track - 0x8000_0000_0000_0000) as i64) + i64::MIN
    }
}

/// Decides what becomes of one payload: a message with content is scored and stamped with
/// its arrival time, a notice or warning yields the value for its gauge, a disconnect notice
/// and a payload that could not be decoded yield nothing.
pub fn digest(decoded: &Option<Tweet>, arrival: i64) -> (outcome: Outcome)
    ensures
        outcome == outcome_of(*decoded, arrival),
{
    match decoded {
        None => Outcome::Dropped,
        Some(Tweet::Content(content)) => Outcome::Stored(
            Sample { time: arrival, value: message_value(content.text.as_str()) },
        ),
        Some(Tweet::ApiLimit(notice)) => Outcome::QueueDepth(queue_depth(notice.limit.track)),
        Some(Tweet::StallWarning(warning)) => Outcome::StallLevel(warning.percent_full as i64),
        Some(Tweet::Disconnect(_)) => Outcome::Disconnected,
    }
}

} // verus!
