use twitter_sibyl_system::scraper::metrics::Sample;
use twitter_sibyl_system::scraper::pipeline::{digest, queue_depth, Outcome};
use twitter_sibyl_system::scraper::sentiment::message_value;
use twitter_sibyl_system::tweet::{
    ApiLimit, Content, Disconnect, Limit, MessageKind, StallWarning, Tweet,
};

fn content(text: &str) -> Tweet {
    Tweet::Content(Content { created_at: "Wed Oct 16 20:18:02 +0000 2019".to_owned(), text: text.to_owned() })
}

fn limit(track: u64) -> Tweet {
    Tweet::ApiLimit(ApiLimit { limit: Limit { track, timestamp_ms: "1571317682725".to_owned() } })
}

fn disconnect() -> Tweet {
    Tweet::Disconnect(Disconnect { code: 7, stream_name: "rust".to_owned(), reason: "admin logout".to_owned() })
}

fn stall(percent_full: u8) -> Tweet {
    Tweet::StallWarning(StallWarning {
        code: 1,
        stream_name: "rust".to_owned(),
        message: "falling behind".to_owned(),
        percent_full,
    })
}

#[test]
fn message_value_scores_a_positive_sentence() {
    assert_eq!(message_value("I do not like jam tarts"), 2);
}

#[test]
fn message_value_scores_a_negative_sentence() {
    assert_eq!(message_value("what a terrible, bad day"), -6);
}

#[test]
fn message_value_adds_up_both_moods() {
    assert_eq!(message_value("I love rust but hate bugs"), 0);
    assert_eq!(message_value("awesome AWESOME awesome and sad"), 10);
}

#[test]
fn message_value_of_unknown_words_is_zero() {
    assert_eq!(message_value(""), 0);
    assert_eq!(message_value("rust verus"), 0);
}

#[test]
fn kinds_are_told_apart() {
    assert_eq!(content("hello").kind(), MessageKind::Content);
    assert_eq!(limit(1).kind(), MessageKind::RateLimitNotice);
    assert_eq!(disconnect().kind(), MessageKind::DisconnectNotice);
    assert_eq!(stall(1).kind(), MessageKind::StallWarning);
}

#[test]
fn content_becomes_a_sample_with_arrival_time_and_score() {
    let decoded = Some(content("this is good, really good"));
    assert_eq!(digest(&decoded, 1571317682), Outcome::Stored(Sample { time: 1571317682, value: 6 }));
}

#[test]
fn content_keeps_a_negative_arrival_time() {
    let decoded = Some(content("sad"));
    assert_eq!(digest(&decoded, -5), Outcome::Stored(Sample { time: -5, value: -2 }));
}

#[test]
fn rate_limit_notice_sets_the_queue_gauge() {
    let decoded = Some(limit(1678));
    assert_eq!(digest(&decoded, 1), Outcome::QueueDepth(1678));
}

#[test]
fn stall_warning_sets_the_stall_gauge() {
    assert_eq!(digest(&Some(stall(0)), 1), Outcome::StallLevel(0));
    assert_eq!(digest(&Some(stall(60)), 1), Outcome::StallLevel(60));
    assert_eq!(digest(&Some(stall(255)), 1), Outcome::StallLevel(255));
}

#[test]
fn disconnect_notice_yields_nothing() {
    assert_eq!(digest(&Some(disconnect()), 1), Outcome::Disconnected);
}

#[test]
fn undecodable_payload_is_dropped() {
    assert_eq!(digest(&None, 1), Outcome::Dropped);
}

#[test]
fn queue_depth_reads_the_count_as_signed() {
    assert_eq!(queue_depth(0), 0);
    assert_eq!(queue_depth(1678), 1678);
    assert_eq!(queue_depth(9223372036854775807), i64::MAX);
    assert_eq!(queue_depth(9223372036854775808), i64::MIN);
    assert_eq!(queue_depth(u64::MAX), -1);
    assert_eq!(queue_depth(u64::MAX - 41), -42);
}
