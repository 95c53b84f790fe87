use twitter_sibyl_system::scraper::policy::BackoffState;
use twitter_sibyl_system::scraper::rate_controlled_stream::{
    RateLimitedStream, StreamCommand, StreamEvent, StreamStatus, TerminationReason,
};

fn stream_for(topic: &str) -> RateLimitedStream {
    RateLimitedStream::from_topic(topic.to_owned())
}

#[test]
fn new_stream_is_streaming_without_history() {
    let stream = stream_for("rust");
    assert_eq!(stream.topic().as_str(), "rust");
    assert_eq!(stream.status(), StreamStatus::Streaming);
    assert_eq!(stream.backoff(), BackoffState { consecutive_limit_hits: 0 });
    assert!(!stream.is_terminated());
}

#[test]
fn item_is_delivered_and_stream_keeps_streaming() {
    let mut stream = stream_for("rust");
    assert_eq!(stream.step(StreamEvent::Item, 10), StreamCommand::Deliver);
    assert_eq!(stream.status(), StreamStatus::Streaming);
}

#[test]
fn status_429_twice_backs_off_60_then_120() {
    let mut stream = stream_for("rust");
    assert_eq!(stream.step(StreamEvent::Failed(429), 1000), StreamCommand::Sleep { until: 1060 });
    assert_eq!(stream.status(), StreamStatus::WaitingToReconnect { deadline: 1060 });
    assert_eq!(stream.step(StreamEvent::Tick, 1060), StreamCommand::Connect);
    assert_eq!(stream.status(), StreamStatus::Streaming);
    assert_eq!(stream.step(StreamEvent::Failed(429), 2000), StreamCommand::Sleep { until: 2120 });
    assert_eq!(stream.status(), StreamStatus::WaitingToReconnect { deadline: 2120 });
    assert_eq!(stream.backoff().consecutive_limit_hits, 2);
}

#[test]
fn delivered_item_resets_backoff_to_sixty() {
    let mut stream = stream_for("rust");
    let mut now: u64 = 0;
    let mut round: u64 = 1;
    while round <= 3 {
        assert_eq!(
            stream.step(StreamEvent::Failed(420), now),
            StreamCommand::Sleep { until: now + 60 * round }
        );
        now += 60 * round;
        assert_eq!(stream.step(StreamEvent::Tick, now), StreamCommand::Connect);
        round += 1;
    }
    assert_eq!(stream.backoff().consecutive_limit_hits, 3);
    assert_eq!(stream.step(StreamEvent::Item, now), StreamCommand::Deliver);
    assert_eq!(stream.backoff().consecutive_limit_hits, 0);
    assert_eq!(
        stream.step(StreamEvent::Failed(429), now),
        StreamCommand::Sleep { until: now + 60 }
    );
}

#[test]
fn gone_reconnects_without_delay_and_clears_history() {
    let mut stream = stream_for("rust");
    stream.step(StreamEvent::Failed(429), 100);
    stream.step(StreamEvent::Tick, 160);
    assert_eq!(stream.backoff().consecutive_limit_hits, 1);
    assert_eq!(stream.step(StreamEvent::Failed(410), 200), StreamCommand::Sleep { until: 200 });
    assert_eq!(stream.status(), StreamStatus::WaitingToReconnect { deadline: 200 });
    assert_eq!(stream.backoff().consecutive_limit_hits, 0);
    assert_eq!(stream.step(StreamEvent::Tick, 200), StreamCommand::Connect);
}

#[test]
fn retry_window_waits_300_and_keeps_history() {
    let mut stream = stream_for("rust");
    stream.step(StreamEvent::Failed(429), 100);
    stream.step(StreamEvent::Tick, 160);
    assert_eq!(stream.step(StreamEvent::Failed(304), 500), StreamCommand::Sleep { until: 800 });
    assert_eq!(stream.backoff().consecutive_limit_hits, 1);
}

#[test]
fn each_fatal_code_stops_a_streaming_stream() {
    let fatal: Vec<u16> = vec![400, 401, 403, 404, 406, 422];
    for code in fatal {
        let mut stream = stream_for("rust");
        let reason = TerminationReason::Fatal(code);
        assert_eq!(stream.step(StreamEvent::Failed(code), 5), StreamCommand::Stop { reason });
        assert_eq!(stream.status(), StreamStatus::Terminated { reason });
        assert!(stream.is_terminated());
    }
}

#[test]
fn fatal_code_stops_a_waiting_stream() {
    let mut stream = stream_for("rust");
    stream.step(StreamEvent::Failed(429), 100);
    let reason = TerminationReason::Fatal(401);
    assert_eq!(stream.step(StreamEvent::Failed(401), 110), StreamCommand::Stop { reason });
    assert_eq!(stream.status(), StreamStatus::Terminated { reason });
}

#[test]
fn terminated_stream_answers_idle_and_never_reconnects() {
    let mut stream = stream_for("rust");
    let reason = TerminationReason::Fatal(403);
    assert_eq!(stream.step(StreamEvent::Failed(403), 5), StreamCommand::Stop { reason });
    let events: Vec<StreamEvent> = vec![
        StreamEvent::Item,
        StreamEvent::EndOfStream,
        StreamEvent::Failed(429),
        StreamEvent::Failed(410),
        StreamEvent::Failed(404),
        StreamEvent::Tick,
        StreamEvent::Cancel,
    ];
    let mut now: u64 = 6;
    for event in events {
        assert!(stream.can_step(event, now));
        assert_eq!(stream.step(event, now), StreamCommand::Idle);
        assert_eq!(stream.status(), StreamStatus::Terminated { reason });
        now += 1000;
    }
}

#[test]
fn unknown_status_keeps_streaming() {
    let mut stream = stream_for("rust");
    assert_eq!(stream.step(StreamEvent::Failed(503), 5), StreamCommand::Read);
    assert_eq!(stream.status(), StreamStatus::Streaming);
    assert_eq!(stream.backoff().consecutive_limit_hits, 0);
}

#[test]
fn clean_end_asks_for_a_new_connection_at_once() {
    let mut stream = stream_for("rust");
    assert_eq!(stream.step(StreamEvent::EndOfStream, 77), StreamCommand::Sleep { until: 77 });
    assert_eq!(stream.status(), StreamStatus::WaitingToReconnect { deadline: 77 });
    assert_eq!(stream.step(StreamEvent::Tick, 77), StreamCommand::Connect);
    assert_eq!(stream.status(), StreamStatus::Streaming);
}

#[test]
fn waiting_stream_sleeps_until_its_deadline() {
    let mut stream = stream_for("rust");
    stream.step(StreamEvent::Failed(304), 1000);
    assert_eq!(stream.step(StreamEvent::Tick, 1000), StreamCommand::Sleep { until: 1300 });
    assert_eq!(stream.step(StreamEvent::Tick, 1299), StreamCommand::Sleep { until: 1300 });
    assert_eq!(stream.status(), StreamStatus::WaitingToReconnect { deadline: 1300 });
    assert_eq!(stream.step(StreamEvent::Tick, 1300), StreamCommand::Connect);
    assert_eq!(stream.status(), StreamStatus::Streaming);
}

#[test]
fn waiting_stream_discards_stale_payloads() {
    let mut stream = stream_for("rust");
    stream.step(StreamEvent::Failed(429), 1000);
    assert_eq!(stream.step(StreamEvent::Item, 1001), StreamCommand::Sleep { until: 1060 });
    assert_eq!(stream.step(StreamEvent::EndOfStream, 1002), StreamCommand::Sleep { until: 1060 });
    assert_eq!(stream.status(), StreamStatus::WaitingToReconnect { deadline: 1060 });
    assert_eq!(stream.backoff().consecutive_limit_hits, 1);
}

#[test]
fn tick_while_streaming_goes_on_reading() {
    let mut stream = stream_for("rust");
    assert_eq!(stream.step(StreamEvent::Tick, 3), StreamCommand::Read);
    assert_eq!(stream.status(), StreamStatus::Streaming);
}

#[test]
fn shutdown_mid_backoff_stops_at_once() {
    let mut stream = stream_for("rust");
    assert_eq!(stream.step(StreamEvent::Failed(304), 1000), StreamCommand::Sleep { until: 1300 });
    let reason = TerminationReason::Cancelled;
    assert_eq!(stream.step(StreamEvent::Cancel, 1050), StreamCommand::Stop { reason });
    assert_eq!(stream.status(), StreamStatus::Terminated { reason });
    assert_eq!(stream.step(StreamEvent::Tick, 1300), StreamCommand::Idle);
}

#[test]
fn cancel_stops_a_streaming_stream() {
    let mut stream = stream_for("rust");
    let reason = TerminationReason::Cancelled;
    assert_eq!(stream.step(StreamEvent::Cancel, 1), StreamCommand::Stop { reason });
    assert!(stream.is_terminated());
}

#[test]
fn stop_is_given_once() {
    let mut stream = stream_for("rust");
    let mut stops: usize = 0;
    let events: Vec<StreamEvent> = vec![
        StreamEvent::Item,
        StreamEvent::Failed(422),
        StreamEvent::Failed(422),
        StreamEvent::Cancel,
        StreamEvent::Tick,
    ];
    for event in events {
        if matches!(stream.step(event, 9), StreamCommand::Stop { .. }) {
            stops += 1;
        }
    }
    assert_eq!(stops, 1);
}

#[test]
fn can_step_tells_where_the_deadline_no_longer_fits() {
    let stream = stream_for("rust");
    assert!(stream.can_step(StreamEvent::Failed(429), u64::MAX - 60));
    assert!(!stream.can_step(StreamEvent::Failed(429), u64::MAX - 59));
    assert!(stream.can_step(StreamEvent::Failed(304), u64::MAX - 300));
    assert!(!stream.can_step(StreamEvent::Failed(304), u64::MAX - 299));
    assert!(stream.can_step(StreamEvent::Failed(410), u64::MAX));
    assert!(stream.can_step(StreamEvent::Failed(403), u64::MAX));
    assert!(stream.can_step(StreamEvent::Item, u64::MAX));
    assert!(stream.can_step(StreamEvent::Tick, u64::MAX));
}

#[test]
fn latest_deadline_that_fits_is_reached() {
    let mut stream = stream_for("rust");
    let now: u64 = u64::MAX - 60;
    assert_eq!(stream.step(StreamEvent::Failed(429), now), StreamCommand::Sleep { until: u64::MAX });
}
