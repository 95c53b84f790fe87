use twitter_sibyl_system::scraper::instruments::{reading, InstrumentKind, Meter, Reading};
use twitter_sibyl_system::scraper::metrics::Sample;
use twitter_sibyl_system::scraper::pipeline::Outcome;

#[test]
fn stored_sample_counts_one_processed_message() {
    let outcome = Outcome::Stored(Sample { time: 7, value: -3 });
    assert_eq!(reading(&outcome), Some(Reading::Counted { meter: Meter::TweetsProcessed, by: 1 }));
}

#[test]
fn rate_limit_notice_is_read_on_the_queue_gauge() {
    assert_eq!(
        reading(&Outcome::QueueDepth(1678)),
        Some(Reading::Gauged { meter: Meter::TweetsQueued, at: 1678 })
    );
    assert_eq!(
        reading(&Outcome::QueueDepth(-1)),
        Some(Reading::Gauged { meter: Meter::TweetsQueued, at: -1 })
    );
}

#[test]
fn stall_warning_is_read_on_the_stall_gauge() {
    assert_eq!(
        reading(&Outcome::StallLevel(61)),
        Some(Reading::Gauged { meter: Meter::StallLevel, at: 61 })
    );
}

#[test]
fn other_outcomes_record_nothing() {
    assert_eq!(reading(&Outcome::Disconnected), None);
    assert_eq!(reading(&Outcome::Dropped), None);
    assert_eq!(reading(&Outcome::Refused), None);
}

#[test]
fn meters_have_their_names_and_kinds() {
    assert_eq!(Meter::TweetsProcessed.name(), "tweets_processed");
    assert_eq!(Meter::TweetsQueued.name(), "tweets_queued");
    assert_eq!(Meter::StallLevel.name(), "stall_level");
    assert_eq!(Meter::ProcessingTime.name(), "processing_time");
    assert_eq!(Meter::StorageTime.name(), "storage_time");
    assert_eq!(Meter::TweetsProcessed.kind(), InstrumentKind::Tally);
    assert_eq!(Meter::TweetsQueued.kind(), InstrumentKind::Level);
    assert_eq!(Meter::StallLevel.kind(), InstrumentKind::Level);
    assert_eq!(Meter::ProcessingTime.kind(), InstrumentKind::Spread);
    assert_eq!(Meter::StorageTime.kind(), InstrumentKind::Spread);
}
