use quantum_os::aggregator::StreamAggregator;
use quantum_os::error::{ExecutionError, QuantumRuntimeError};
use quantum_os::job::{JobEvent, JobStatus};
use quantum_os::measurement::MeasurementEvent;
use quantum_os::server::MeasurementStreamServer;
use quantum_os::streaming::{BackpressureGovernor, Mailbox, MessageKind, ReplayBuffer, StreamingServerConfig, SubscribePayload};
use quantum_os::transport::{
    datagram_priority, next_mode, route, AdaptationConfig, DatagramSequencer, DatagramStats, ModeSelector, Route,
    TransportMode,
};

#[test]
fn test_replay_buffer() {
    let mut buffer: ReplayBuffer<(u64, f64)> = ReplayBuffer::new(5);

    for i in 0..10 {
        buffer.push((i, 0.5));
    }

    assert_eq!(buffer.len(), 5);
    assert_eq!(buffer.current_message_id(), 10);
}

#[test]
fn test_stream_aggregator() {
    let mut aggregator = StreamAggregator::new(5);
    let job_id = 77;

    for i in 0..10 {
        let event = MeasurementEvent::new(job_id, i, vec![0, i as u8 % 2]);
        let should_emit = aggregator.add_measurement(&event);

        if i == 4 || i == 9 {
            assert!(should_emit);
        }
    }

    assert_eq!(aggregator.total_count(), 10);
}

#[test]
fn test_datagram_stats() {
    let mut stats = DatagramStats::new();
    stats.sent = 100;
    stats.received = 95;

    // A loss rate of 0.05, within 0.001.
    assert!(stats.loss_exceeds(49_000));
    assert!(!stats.loss_exceeds(51_000));
}

#[test]
fn test_transport_mode_adaptation() {
    let config = AdaptationConfig::default_config();
    assert_eq!(config.loss_threshold_to_stream_ppm, 50_000);
    assert_eq!(config.loss_threshold_to_datagram_ppm, 10_000);
}

#[test]
fn backpressure_counts_in_flight_messages() {
    let mut handler = BackpressureGovernor::new(3);
    assert!(handler.try_acquire());
    assert!(handler.try_acquire());
    assert!(handler.is_under_pressure());
    let pressure = handler.pending_count() as f64 / handler.threshold() as f64;
    assert!((pressure - 0.67).abs() < 0.1);
    handler.release();
    // One of three in flight is still at least half the threshold rounded down.
    assert!(handler.is_under_pressure());
    handler.release();
    assert!(!handler.is_under_pressure());
    handler.release();
    assert_eq!(handler.pending_count(), 0);
}

#[test]
fn replay_get_since_returns_newer_messages() {
    let mut buffer: ReplayBuffer<u32> = ReplayBuffer::new(3);
    for i in 1..=5 {
        buffer.push(i * 10);
    }
    assert_eq!(buffer.get_all(), vec![30, 40, 50]);
    assert_eq!(buffer.get_since(3), vec![40, 50]);
    assert_eq!(buffer.get_since(0), vec![30, 40, 50]);
    assert_eq!(buffer.get_since(5), Vec::<u32>::new());
    buffer.clear();
    assert!(buffer.is_empty());
    assert_eq!(buffer.current_message_id(), 5);
}

#[test]
fn empty_replay_capacity_keeps_nothing() {
    let mut buffer: ReplayBuffer<u8> = ReplayBuffer::new(0);
    buffer.push(1);
    assert_eq!(buffer.len(), 0);
    assert_eq!(buffer.current_message_id(), 1);
}

#[test]
fn aggregator_top_counts_most_frequent_first() {
    let mut aggregator = StreamAggregator::new(100);
    let outcomes: Vec<Vec<u8>> = vec![vec![0, 1], vec![1, 1], vec![1, 1], vec![0, 0], vec![1, 1], vec![0, 0]];
    for (i, b) in outcomes.into_iter().enumerate() {
        assert!(!aggregator.add_measurement(&MeasurementEvent::new(1, i, b)));
    }
    let top = aggregator.top_counts(2);
    assert_eq!(top.len(), 2);
    assert_eq!((top[0].bitstring.as_str(), top[0].count), ("11", 3));
    assert_eq!((top[1].bitstring.as_str(), top[1].count), ("00", 2));
    assert_eq!(aggregator.top_counts(10).len(), 3);
    aggregator.reset();
    assert_eq!(aggregator.total_count(), 0);
    assert_eq!(aggregator.count_of(&"11".to_string()), 0);
}

#[test]
fn mailbox_drops_when_full_and_counts() {
    let mut mailbox: Mailbox<u8> = Mailbox::new(2);
    assert!(mailbox.offer(1));
    assert!(mailbox.offer(2));
    assert!(!mailbox.offer(3));
    assert_eq!(mailbox.dropped_count(), 1);
    assert_eq!(mailbox.receive(), Some(1));
    assert_eq!(mailbox.replay(vec![7, 8, 9]), 1);
    assert_eq!(mailbox.receive(), Some(2));
    assert_eq!(mailbox.receive(), Some(7));
    assert_eq!(mailbox.receive(), None);
}

#[test]
fn subscription_filters_by_kind() {
    let sub = SubscribePayload { job_id: 1, include_measurements: false, include_statistics: true, statistics_interval_shots: 10 };
    assert!(!sub.wants(MessageKind::MeasurementEvent));
    assert!(sub.wants(MessageKind::StatisticsUpdate));
    assert!(sub.wants(MessageKind::JobCompleted));
}

fn config(replay: usize, mailbox: usize, threshold: usize) -> StreamingServerConfig {
    let mut c = StreamingServerConfig::default_config();
    c.replay_buffer_size = replay;
    c.message_buffer_size = mailbox;
    c.backpressure_threshold = threshold;
    c
}

fn all_kinds(job_id: u128) -> SubscribePayload {
    SubscribePayload { job_id, include_measurements: true, include_statistics: true, statistics_interval_shots: 100 }
}

#[test]
fn late_subscriber_gets_the_last_fifty_then_live_events() {
    let mut server: MeasurementStreamServer<usize> = MeasurementStreamServer::new(config(50, 10_000, 1_000));
    let job = 0xABCD;
    server.register_job(job, 300);
    for shot in 0..200 {
        assert!(server.publish_measurement(&MeasurementEvent::new(job, shot, vec![0]), shot).is_ok());
    }
    let sub = server.subscribe(job, all_kinds(job)).unwrap();
    assert!(server.publish_measurement(&MeasurementEvent::new(job, 200, vec![1]), 200).is_ok());
    let mut received = Vec::new();
    while let Some(m) = server.receive(job, sub) {
        received.push(m);
    }
    let expected: Vec<usize> = (150..=200).collect();
    assert_eq!(received, expected);
}

#[test]
fn in_flight_publishes_never_exceed_the_threshold() {
    let mut server: MeasurementStreamServer<usize> = MeasurementStreamServer::new(config(16, 1, 4));
    let job = 5;
    server.register_job(job, 10);
    let _slow = server.subscribe(job, all_kinds(job)).unwrap();
    for _ in 0..4 {
        assert!(server.try_acquire_publish(job).unwrap());
    }
    assert!(!server.try_acquire_publish(job).unwrap());
    for shot in 0..10 {
        if shot >= 4 {
            assert!(server.try_acquire_publish(job).unwrap());
        }
        assert!(server.publish_measurement(&MeasurementEvent::new(job, shot, vec![1]), shot).is_ok());
        server.release_publish(job);
    }
    assert_eq!(server.replay_history(job).unwrap(), (0..10).collect::<Vec<usize>>());
}

#[test]
fn completed_jobs_refuse_further_measurements() {
    let mut server: MeasurementStreamServer<usize> = MeasurementStreamServer::new(config(8, 8, 8));
    let job = 3;
    server.register_job(job, 100_000);
    let sub = server.subscribe(job, all_kinds(job)).unwrap();
    assert!(server.publish_measurement(&MeasurementEvent::new(job, 0, vec![0]), 0).is_ok());
    assert!(server.complete_job(job, 999).is_ok());
    assert!(matches!(
        server.publish_measurement(&MeasurementEvent::new(job, 1, vec![0]), 1),
        Err(QuantumRuntimeError::Execution(ExecutionError::JobNotFound(3)))
    ));
    assert!(matches!(
        server.complete_job(job, 1000),
        Err(QuantumRuntimeError::Execution(ExecutionError::JobAlreadyCompleted(3)))
    ));
    assert_eq!(server.receive(job, sub), Some(0));
    assert_eq!(server.receive(job, sub), Some(999));
    assert_eq!(server.receive(job, sub), None);
    assert!(server.unsubscribe(job, sub));
    assert_eq!(server.subscriber_count(job), 0);
}

#[test]
fn unknown_jobs_are_not_found() {
    let mut server: MeasurementStreamServer<usize> = MeasurementStreamServer::new(config(8, 8, 8));
    assert!(matches!(
        server.publish_measurement(&MeasurementEvent::new(1, 0, vec![0]), 0),
        Err(QuantumRuntimeError::Execution(ExecutionError::JobNotFound(1)))
    ));
    assert!(server.subscribe(1, all_kinds(1)).is_err());
    assert_eq!(server.subscriber_count(1), 0);
}

#[test]
fn statistics_are_due_every_interval() {
    let mut c = config(8, 8, 8);
    c.statistics_interval_shots = 3;
    let mut server: MeasurementStreamServer<usize> = MeasurementStreamServer::new(c);
    server.register_job(4, 6);
    let due: Vec<bool> = (0..6)
        .map(|i| server.publish_measurement(&MeasurementEvent::new(4, i, vec![(i % 2) as u8]), i).unwrap())
        .collect();
    assert_eq!(due, vec![false, false, true, false, false, true]);
    let (total, top) = server.statistics(4, 10).unwrap();
    assert_eq!(total, 6);
    assert_eq!(top.len(), 2);
    assert_eq!(top[0].count, 3);
}

#[test]
fn sustained_loss_moves_datagrams_to_the_stream_once() {
    let mut selector = ModeSelector::new(TransportMode::Datagram, AdaptationConfig::default_config());
    let mut stats = DatagramStats::new();
    stats.sent = 1000;
    stats.received = 900;
    assert!(selector.evaluate_and_adapt(&stats, 0));
    assert_eq!(selector.current_mode(), TransportMode::Stream);
    assert_eq!(selector.mode_switches(), 1);
    // Within the same window nothing is evaluated.
    assert!(!selector.evaluate_and_adapt(&stats, 4_999));
    assert!(!selector.evaluate_and_adapt(&stats, 5_000));
    assert_eq!(selector.current_mode(), TransportMode::Stream);
    assert_eq!(selector.mode_switches(), 1);
}

#[test]
fn low_loss_returns_the_stream_to_datagrams() {
    let config = AdaptationConfig::default_config();
    let mut stats = DatagramStats::new();
    stats.sent = 1000;
    stats.received = 995;
    assert_eq!(next_mode(TransportMode::Stream, &stats, &config), TransportMode::Datagram);
    assert_eq!(next_mode(TransportMode::Datagram, &stats, &config), TransportMode::Datagram);
    assert_eq!(next_mode(TransportMode::Hybrid, &DatagramStats::new(), &config), TransportMode::Hybrid);
    assert_eq!(route(TransportMode::Hybrid, true), Route { via_stream: true, via_datagram: true, requires_ack: true });
    assert_eq!(route(TransportMode::Stream, false), Route { via_stream: true, via_datagram: false, requires_ack: false });
    assert_eq!(datagram_priority(9, 4), 3);
    assert_eq!(datagram_priority(2, 4), 2);
}

#[test]
fn job_status_only_moves_forward() {
    let s = JobStatus::Queued.after(JobEvent::Started);
    assert_eq!(s, JobStatus::Running);
    let s = s.after(JobEvent::Cancelled);
    assert_eq!(s, JobStatus::Cancelled);
    assert_eq!(s.after(JobEvent::Started), JobStatus::Cancelled);
    assert_eq!(s.after(JobEvent::Succeeded), JobStatus::Cancelled);
    assert_eq!(JobStatus::Queued.after(JobEvent::Cancelled), JobStatus::Cancelled);
    assert_eq!(JobStatus::Running.after(JobEvent::Failed), JobStatus::Failed);
    assert!(JobStatus::Completed.is_finished());
    assert!(!JobStatus::Running.is_finished());
}

#[test]
fn cancelling_a_running_job_ends_its_stream() {
    let mut status = JobStatus::Queued.after(JobEvent::Started);
    assert_eq!(status, JobStatus::Running);
    let mut server: MeasurementStreamServer<usize> = MeasurementStreamServer::new(config(64, 64, 64));
    let job = 11;
    server.register_job(job, 100_000);
    for shot in 0..3 {
        assert!(server.publish_measurement(&MeasurementEvent::new(job, shot, vec![1]), shot).is_ok());
    }
    // Cancellation is observed at the next shot boundary.
    status = status.after(JobEvent::Cancelled);
    assert_eq!(status, JobStatus::Cancelled);
    assert!(server.complete_job(job, usize::MAX).is_ok());
    assert!(server.publish_measurement(&MeasurementEvent::new(job, 3, vec![1]), 3).is_err());
    assert_eq!(server.replay_history(job).unwrap(), vec![0, 1, 2]);
    assert_eq!(status.after(JobEvent::Succeeded), JobStatus::Cancelled);
}

#[test]
fn datagram_sequence_numbers_increase() {
    let mut seq = DatagramSequencer::new(4);
    assert_eq!(seq.next(9), (0, 3));
    assert_eq!(seq.next(1), (1, 1));
    seq.record_sent();
    seq.record_sent();
    seq.record_received();
    seq.record_dropped();
    let stats = seq.stats();
    assert_eq!((stats.sent, stats.received, stats.dropped), (2, 1, 1));
    assert!(stats.loss_exceeds(499_999));
    assert!(!stats.loss_exceeds(500_000));
}
