use metrics_runtime::Receiver;
use twitter_sibyl_system::scraper::metrics::Sample;
use twitter_sibyl_system::scraper::pipeline::Outcome;
use twitter_sibyl_system::scraper::rate_controlled_stream::{
    StreamCommand, StreamEvent, StreamStatus, TerminationReason,
};
use twitter_sibyl_system::scraper::worker::TopicWorker;
use twitter_sibyl_system::tweet::{Content, Tweet};

fn worker_for(topic: &str) -> (Receiver, TopicWorker) {
    let receiver = Receiver::builder().build().expect("receiver");
    let mut sink = receiver.sink();
    let worker = TopicWorker::new(topic.to_owned(), &mut sink);
    (receiver, worker)
}

fn scored(text: &str) -> Option<Tweet> {
    Some(Tweet::Content(Content { created_at: String::new(), text: text.to_owned() }))
}

#[test]
fn new_worker_is_fresh() {
    let (_receiver, worker) = worker_for("rust");
    assert_eq!(worker.topic().as_str(), "rust");
    assert_eq!(worker.status(), StreamStatus::Streaming);
    assert_eq!(worker.backoff().consecutive_limit_hits, 0);
    assert!(!worker.is_terminated());
    let snapshot = worker.snapshot();
    assert_eq!(snapshot.topic, "rust");
    assert_eq!(snapshot.data, Vec::<Sample>::new());
}

#[test]
fn worker_handles_events_without_touching_the_series() {
    let (_receiver, mut worker) = worker_for("rust");
    assert_eq!(worker.ingest(&scored("good"), 5), Outcome::Stored(Sample { time: 5, value: 3 }));
    assert!(worker.can_handle(StreamEvent::Failed(420), 100));
    assert_eq!(worker.handle(StreamEvent::Failed(420), 100), StreamCommand::Sleep { until: 160 });
    assert_eq!(worker.status(), StreamStatus::WaitingToReconnect { deadline: 160 });
    assert_eq!(worker.backoff().consecutive_limit_hits, 1);
    assert_eq!(worker.snapshot().data, vec![Sample { time: 5, value: 3 }]);
    assert_eq!(worker.handle(StreamEvent::Tick, 160), StreamCommand::Connect);
    assert_eq!(worker.handle(StreamEvent::Item, 161), StreamCommand::Deliver);
    assert_eq!(worker.backoff().consecutive_limit_hits, 0);
}

#[test]
fn worker_cannot_handle_a_deadline_out_of_range() {
    let (_receiver, worker) = worker_for("rust");
    assert!(!worker.can_handle(StreamEvent::Failed(429), u64::MAX));
    assert!(!worker.can_handle(StreamEvent::Failed(304), u64::MAX - 1));
    assert!(worker.can_handle(StreamEvent::EndOfStream, u64::MAX));
    assert!(worker.can_handle(StreamEvent::Cancel, u64::MAX));
}

#[test]
fn force_stop_cancels_a_running_worker_once() {
    let (_receiver, mut worker) = worker_for("rust");
    assert!(worker.force_stop());
    let cancelled = StreamStatus::Terminated { reason: TerminationReason::Cancelled };
    assert_eq!(worker.status(), cancelled);
    assert!(!worker.force_stop());
    assert_eq!(worker.status(), cancelled);
}

#[test]
fn force_stop_keeps_the_reason_of_a_stopped_worker() {
    let (_receiver, mut worker) = worker_for("rust");
    worker.handle(StreamEvent::Failed(406), 1);
    assert!(!worker.force_stop());
    assert_eq!(
        worker.status(),
        StreamStatus::Terminated { reason: TerminationReason::Fatal(406) }
    );
}

#[test]
fn stopped_worker_refuses_payloads() {
    let (_receiver, mut worker) = worker_for("rust");
    worker.ingest(&scored("good"), 1);
    worker.handle(StreamEvent::Cancel, 2);
    assert_eq!(worker.ingest(&scored("good"), 3), Outcome::Refused);
    assert_eq!(worker.ingest(&None, 4), Outcome::Refused);
    assert_eq!(worker.ingest_now(&scored("bad")), Outcome::Refused);
    assert_eq!(worker.snapshot().data, vec![Sample { time: 1, value: 3 }]);
}

fn registered(receiver: &Receiver) -> Vec<(String, String, Vec<(String, String)>)> {
    let mut found: Vec<(String, String, Vec<(String, String)>)> = Vec::new();
    for (key, measurement) in receiver.controller().snapshot().into_measurements() {
        let kind = match measurement {
            metrics_runtime::Measurement::Counter(_) => "counter",
            metrics_runtime::Measurement::Gauge(_) => "gauge",
            metrics_runtime::Measurement::Histogram(_) => "histogram",
        };
        let labels: Vec<(String, String)> =
            key.labels().map(|label| (label.key().to_owned(), label.value().to_owned())).collect();
        found.push((kind.to_owned(), key.name().to_string(), labels));
    }
    found.sort();
    found
}

#[test]
fn new_worker_registers_its_five_instruments_under_the_topic() {
    let (receiver, _worker) = worker_for("rust");
    let topic = vec![("topic".to_owned(), "rust".to_owned())];
    assert_eq!(
        registered(&receiver),
        vec![
            ("counter".to_owned(), "tweets_processed".to_owned(), topic.clone()),
            ("gauge".to_owned(), "stall_level".to_owned(), topic.clone()),
            ("gauge".to_owned(), "tweets_queued".to_owned(), topic.clone()),
            ("histogram".to_owned(), "processing_time".to_owned(), topic.clone()),
            ("histogram".to_owned(), "storage_time".to_owned(), topic),
        ]
    );
}

#[test]
fn labels_of_the_sink_follow_the_topic_label() {
    let receiver = Receiver::builder().build().expect("receiver");
    let mut sink = receiver.sink();
    sink.add_default_labels(&[("service", "scraper")]);
    let _worker = TopicWorker::new("verus".to_owned(), &mut sink);
    let labels = vec![
        ("topic".to_owned(), "verus".to_owned()),
        ("service".to_owned(), "scraper".to_owned()),
    ];
    assert_eq!(
        registered(&receiver),
        vec![
            ("counter".to_owned(), "tweets_processed".to_owned(), labels.clone()),
            ("gauge".to_owned(), "stall_level".to_owned(), labels.clone()),
            ("gauge".to_owned(), "tweets_queued".to_owned(), labels.clone()),
            ("histogram".to_owned(), "processing_time".to_owned(), labels.clone()),
            ("histogram".to_owned(), "storage_time".to_owned(), labels),
        ]
    );
}

#[test]
fn workers_of_two_topics_register_side_by_side() {
    let receiver = Receiver::builder().build().expect("receiver");
    let mut sink = receiver.sink();
    let _first = TopicWorker::new("a".to_owned(), &mut sink);
    let _second = TopicWorker::new("b".to_owned(), &mut sink);
    let _again = TopicWorker::new("a".to_owned(), &mut sink);
    assert_eq!(registered(&receiver).len(), 10);
}

fn worker_needs_send_and_sync<T: Send + Sync>() {}

#[test]
fn worker_can_be_shared_behind_a_lock_of_its_own() {
    worker_needs_send_and_sync::<TopicWorker>();
    let (_receiver, worker) = worker_for("rust");
    let shared = std::sync::Arc::new(std::sync::RwLock::new(worker));
    let stored = shared.write().expect("lock").ingest(&scored("good"), 1);
    assert_eq!(stored, Outcome::Stored(Sample { time: 1, value: 3 }));
    let seen = shared.read().expect("lock").live_snapshot().expect("snapshot");
    assert_eq!(seen.topic, "rust");
    assert_eq!(seen.data, vec![Sample { time: 1, value: 3 }]);
}

#[test]
fn live_snapshot_is_none_once_the_stream_stopped() {
    let (_receiver, mut worker) = worker_for("rust");
    worker.ingest(&scored("good"), 1);
    assert!(worker.live_snapshot().is_some());
    worker.handle(StreamEvent::Failed(403), 2);
    assert!(worker.live_snapshot().is_none());
    assert_eq!(worker.snapshot().data, vec![Sample { time: 1, value: 3 }]);
}
