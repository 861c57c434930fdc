use franz::acks::{parse_offset, parse_required_acks, AckLevel, KafkaConfig, OffsetPolicy};
use franz::executor::{aggregate_outcomes, complete_job, register_job, Job};
use franz::hosts::parse_kafka_hosts;
use franz::registry::{JobRegistry, JobState};
use franz::send_spec::{SendCfg, ValidationError};
use franz::worker::{tally_sends, ProducerWorkerOutcome, WorkerTally};

fn cfg(topic: &str, total: u32, producers: u32, acks: i8) -> SendCfg {
    SendCfg {
        topic: String::from(topic),
        payload: String::from("payload"),
        producer_count: producers,
        total_number_of_messages: total,
        requested_required_acks: acks,
    }
}

fn run_worker(assigned: u32, ok: bool, duration_ms: u64) -> ProducerWorkerOutcome {
    let results = vec![ok; assigned as usize];
    tally_sends(&results, duration_ms)
}

#[test]
fn validate_accepts_a_good_request() {
    let spec = cfg("topic", 100, 4, -1).validate().unwrap();
    assert_eq!(spec.topic, "topic");
    assert_eq!(spec.payload, "payload");
    assert_eq!(spec.producer_count, 4);
    assert_eq!(spec.total_number_of_messages, 100);
    assert_eq!(spec.required_acks, AckLevel::All);
}

#[test]
fn validate_maps_each_acknowledgement_code() {
    assert_eq!(cfg("t", 1, 1, 0).validate().unwrap().required_acks, AckLevel::NoAck);
    assert_eq!(cfg("t", 1, 1, 1).validate().unwrap().required_acks, AckLevel::Leader);
    assert_eq!(cfg("t", 1, 1, -1).validate().unwrap().required_acks, AckLevel::All);
}

#[test]
fn validate_rejects_zero_producers() {
    assert_eq!(cfg("t", 100, 0, 1).validate().unwrap_err(), ValidationError::ZeroProducers);
}

#[test]
fn validate_rejects_unknown_acknowledgement_codes() {
    assert_eq!(
        cfg("t", 100, 4, 2).validate().unwrap_err(),
        ValidationError::InvalidAcknowledgementLevel
    );
    assert_eq!(
        cfg("t", 100, 4, -2).validate().unwrap_err(),
        ValidationError::InvalidAcknowledgementLevel
    );
}

#[test]
fn validate_rejects_an_empty_topic() {
    assert_eq!(cfg("", 100, 4, 1).validate().unwrap_err(), ValidationError::EmptyTopic);
}

#[test]
fn rejected_request_creates_no_job_and_no_registry_entry() {
    let registry = JobRegistry::new();
    assert!(Job::create(&cfg("t", 100, 0, 1)).is_err());
    assert_eq!(registry.get(&String::from("any")), None);
}

#[test]
fn job_identifiers_are_fresh_and_opaque() {
    let a = Job::create(&cfg("t", 10, 2, 1)).unwrap();
    let b = Job::create(&cfg("t", 10, 2, 1)).unwrap();
    assert_eq!(a.id().len(), 36);
    assert_eq!(b.id().len(), 36);
    assert_ne!(a.id(), b.id());
}

#[test]
fn status_of_an_unknown_id_is_not_found() {
    let registry = JobRegistry::new();
    assert_eq!(registry.get(&String::from("no-such-job")), None);
}

#[test]
fn status_right_after_registration_is_running() {
    let mut registry = JobRegistry::new();
    let job = Job::create(&cfg("t", 100, 4, 1)).unwrap();
    register_job(&mut registry, &job);
    assert_eq!(registry.get(&job.id()), Some(JobState::Running));
    assert_eq!(registry.get(&String::from("some-other-id")), None);
}

#[test]
fn even_split_sends_the_whole_total() {
    let spec = cfg("t", 100, 4, 1).validate().unwrap();
    assert_eq!(spec.assigned_per_worker(), 25);
    let mut outcomes: Vec<ProducerWorkerOutcome> = Vec::new();
    for _ in 0..4 {
        outcomes.push(run_worker(spec.assigned_per_worker(), true, 10));
    }
    let result = aggregate_outcomes(&outcomes);
    assert_eq!(result.messages_sent, 100);
}

#[test]
fn uneven_split_drops_the_remainder() {
    let spec = cfg("t", 100, 3, 1).validate().unwrap();
    assert_eq!(spec.assigned_per_worker(), 33);
    let mut outcomes: Vec<ProducerWorkerOutcome> = Vec::new();
    for _ in 0..3 {
        outcomes.push(run_worker(spec.assigned_per_worker(), true, 10));
    }
    let result = aggregate_outcomes(&outcomes);
    assert_eq!(result.messages_sent, 99);
}

#[test]
fn a_failing_worker_still_lets_the_job_complete() {
    let mut registry = JobRegistry::new();
    let job = Job::create(&cfg("t", 100, 4, 1)).unwrap();
    register_job(&mut registry, &job);
    let assigned = job.send_cfg().assigned_per_worker();
    let mut outcomes: Vec<ProducerWorkerOutcome> = Vec::new();
    for _ in 0..3 {
        outcomes.push(run_worker(assigned, true, 10));
    }
    outcomes.push(run_worker(assigned, false, 10));
    let id = job.id();
    let result = complete_job(&mut registry, &id, &outcomes);
    assert_eq!(result.messages_sent, 75);
    assert_eq!(registry.get(&id), Some(JobState::Completed(result)));
}

#[test]
fn average_latency_is_total_time_over_messages() {
    let outcomes = vec![
        ProducerWorkerOutcome { messages_sent: 2, duration_ms: 100 },
        ProducerWorkerOutcome { messages_sent: 2, duration_ms: 100 },
    ];
    let result = aggregate_outcomes(&outcomes);
    assert_eq!(result.messages_sent, 4);
    assert_eq!(result.average_latency_ms, 50);
}

#[test]
fn zero_messages_sent_reports_zero_latency() {
    let outcomes = vec![ProducerWorkerOutcome { messages_sent: 0, duration_ms: 500 }];
    let result = aggregate_outcomes(&outcomes);
    assert_eq!(result.messages_sent, 0);
    assert_eq!(result.average_latency_ms, 0);
}

#[test]
fn no_workers_at_all_reports_an_empty_result() {
    let outcomes: Vec<ProducerWorkerOutcome> = Vec::new();
    let result = aggregate_outcomes(&outcomes);
    assert_eq!(result.messages_sent, 0);
    assert_eq!(result.average_latency_ms, 0);
}

#[test]
fn a_tally_counts_successes_and_absorbs_failures() {
    let mut tally = WorkerTally::new(3);
    assert!(!tally.done());
    tally.record_send(true);
    tally.record_send(false);
    tally.record_send(true);
    assert!(tally.done());
    let outcome = tally.outcome(7);
    assert_eq!(outcome.messages_sent, 2);
    assert_eq!(outcome.duration_ms, 7);
}

#[test]
fn parse_required_acks_maps_each_code() {
    assert_eq!(parse_required_acks(0), Ok(AckLevel::NoAck));
    assert_eq!(parse_required_acks(1), Ok(AckLevel::Leader));
    assert_eq!(parse_required_acks(-1), Ok(AckLevel::All));
    assert_eq!(parse_required_acks(2), Err("unknown required acks"));
}

#[test]
fn parse_offset_maps_each_code() {
    assert_eq!(parse_offset(0), Ok(OffsetPolicy::Earliest));
    assert_eq!(parse_offset(1), Ok(OffsetPolicy::Latest));
    assert_eq!(parse_offset(5), Err("unknown fallback offset"));
}

#[test]
fn parse_kafka_hosts_splits_on_commas() {
    assert_eq!(
        parse_kafka_hosts("h1:9092,h2:9092"),
        vec![String::from("h1:9092"), String::from("h2:9092")]
    );
    assert_eq!(parse_kafka_hosts("solo:9092"), vec![String::from("solo:9092")]);
    assert_eq!(parse_kafka_hosts(""), vec![String::from("")]);
}

#[test]
fn kafka_config_carries_the_replicator_options() {
    let config = KafkaConfig {
        offset: 0,
        group: String::from("group"),
        required_acks: -1,
        producer_timeout_ms: 250,
    };
    assert_eq!(parse_offset(config.offset), Ok(OffsetPolicy::Earliest));
    assert_eq!(parse_required_acks(config.required_acks), Ok(AckLevel::All));
    assert_eq!(config.producer_timeout_ms, 250);
}

#[test]
fn a_vanished_worker_contributes_an_empty_outcome() {
    let reported = ProducerWorkerOutcome { messages_sent: 7, duration_ms: 9 };
    assert_eq!(franz::worker::outcome_or_absent(Some(reported)), reported);
    assert_eq!(
        franz::worker::outcome_or_absent(None),
        ProducerWorkerOutcome { messages_sent: 0, duration_ms: 0 }
    );
}
