use watchdog::alerting::{AlertSeverity, ResourceThreshold};
use watchdog::clock::Timestamp;
use watchdog::container_monitor::{ContainerError, ContainerStatus};
use watchdog::monitor::{Action, Event, Monitor, Notice, Phase, Step};
use watchdog::notification::NotificationError;
use watchdog::resource_monitor::{ResourceError, ResourceMetrics};

fn limits() -> ResourceThreshold {
    ResourceThreshold { cpu_threshold: 800, memory_threshold: 900, disk_threshold: 850 }
}

fn now() -> Timestamp {
    Timestamp { secs: 1_700_000_000, nanos: 0 }
}

fn hot() -> ResourceMetrics {
    ResourceMetrics {
        cpu_usage: 850,
        memory_used: 450,
        memory_total: 1000,
        disk_used: 100,
        disk_total: 1000,
    }
}

fn calm() -> ResourceMetrics {
    ResourceMetrics {
        cpu_usage: 100,
        memory_used: 450,
        memory_total: 1000,
        disk_used: 100,
        disk_total: 1000,
    }
}

fn container(id: &str, running: bool) -> ContainerStatus {
    ContainerStatus {
        container_id: id.to_string(),
        name: format!("svc-{}", id),
        status: if running { "Up 1 hour".to_string() } else { "Exited (1)".to_string() },
        running,
        memory_usage: None,
        cpu_usage: None,
    }
}

fn sent(step: &Step) -> (usize, String, String) {
    match &step.action {
        Action::Send { channel, alert } => (*channel, alert.source.clone(), alert.message.clone()),
        other => panic!("expected a send, got {:?}", other),
    }
}

fn refused() -> Result<(), NotificationError> {
    Err(NotificationError::SlackError("status 500".to_string()))
}

#[test]
fn a_quiet_cycle_samples_lists_and_sleeps() {
    let mut monitor = Monitor::new(limits(), 2);
    assert_eq!(monitor.phase(), Phase::Waiting);
    assert_eq!(monitor.channels(), 2);
    let step = monitor.step(Event::Tick, now()).unwrap();
    assert!(matches!(step.action, Action::SampleMetrics));
    assert!(step.notice.is_none());
    assert_eq!(monitor.phase(), Phase::SamplingResources);
    let step = monitor.step(Event::Metrics(Ok(calm())), now()).unwrap();
    assert!(matches!(step.action, Action::ListContainers));
    assert!(step.notice.is_none());
    assert_eq!(monitor.phase(), Phase::SamplingContainers);
    let step = monitor
        .step(Event::Inventory(Ok(vec![container("a", true), container("b", true)])), now())
        .unwrap();
    assert!(matches!(step.action, Action::Sleep));
    assert!(step.notice.is_none());
    assert_eq!(monitor.phase(), Phase::Waiting);
    let step = monitor.step(Event::Tick, now()).unwrap();
    assert!(matches!(step.action, Action::SampleMetrics));
}

#[test]
fn a_resource_alert_goes_to_every_channel_in_order() {
    let mut monitor = Monitor::new(limits(), 3);
    monitor.step(Event::Tick, now()).unwrap();
    let step = monitor.step(Event::Metrics(Ok(hot())), now()).unwrap();
    assert_eq!(sent(&step), (0, "CPU".to_string(), "High CPU usage: 85.0%".to_string()));
    assert_eq!(monitor.phase(), Phase::DispatchingResources);
    let step = monitor.step(Event::Delivery(Ok(())), now()).unwrap();
    assert_eq!(sent(&step), (1, "CPU".to_string(), "High CPU usage: 85.0%".to_string()));
    assert!(step.notice.is_none());
    let step = monitor.step(Event::Delivery(Ok(())), now()).unwrap();
    assert_eq!(sent(&step), (2, "CPU".to_string(), "High CPU usage: 85.0%".to_string()));
    let step = monitor.step(Event::Delivery(Ok(())), now()).unwrap();
    assert!(matches!(step.action, Action::ListContainers));
    assert_eq!(monitor.phase(), Phase::SamplingContainers);
}

#[test]
fn a_failing_channel_does_not_stop_the_others() {
    for failing in 0..4usize {
        let mut monitor = Monitor::new(limits(), 4);
        monitor.step(Event::Tick, now()).unwrap();
        let mut step = monitor.step(Event::Metrics(Ok(hot())), now()).unwrap();
        let mut asked = Vec::new();
        let mut logged = Vec::new();
        while let Action::Send { channel, alert } = &step.action {
            asked.push(*channel);
            assert_eq!(alert.source, "CPU");
            assert_eq!(alert.timestamp, now());
            let outcome = if *channel == failing { refused() } else { Ok(()) };
            step = monitor.step(Event::Delivery(outcome), now()).unwrap();
            if let Some(Notice::DeliveryFailed { channel, alert, error }) = &step.notice {
                assert_eq!(alert.source, "CPU");
                assert!(matches!(error, NotificationError::SlackError(_)));
                logged.push(*channel);
            }
        }
        assert_eq!(asked, vec![0, 1, 2, 3]);
        assert_eq!(logged, vec![failing]);
        assert!(matches!(step.action, Action::ListContainers));
    }
}

#[test]
fn every_channel_failing_still_finishes_the_cycle() {
    let mut monitor = Monitor::new(limits(), 2);
    monitor.step(Event::Tick, now()).unwrap();
    let step = monitor.step(Event::Metrics(Ok(hot())), now()).unwrap();
    assert_eq!(sent(&step).0, 0);
    let step = monitor.step(Event::Delivery(refused()), now()).unwrap();
    assert_eq!(sent(&step).0, 1);
    assert!(matches!(step.notice, Some(Notice::DeliveryFailed { channel: 0, .. })));
    let step = monitor.step(Event::Delivery(refused()), now()).unwrap();
    assert!(matches!(step.action, Action::ListContainers));
    assert!(matches!(step.notice, Some(Notice::DeliveryFailed { channel: 1, .. })));
    let step = monitor.step(Event::Inventory(Ok(vec![])), now()).unwrap();
    assert!(matches!(step.action, Action::Sleep));
}

#[test]
fn a_failing_metrics_source_still_lists_the_containers() {
    let mut monitor = Monitor::new(limits(), 1);
    monitor.step(Event::Tick, now()).unwrap();
    let failure = ResourceError::MetricsCollectionError("no sensors".to_string());
    let step = monitor.step(Event::Metrics(Err(failure)), now()).unwrap();
    assert!(matches!(step.action, Action::ListContainers));
    match step.notice {
        Some(Notice::SamplingFailed(ResourceError::MetricsCollectionError(reason))) => {
            assert_eq!(reason, "no sensors")
        }
        other => panic!("unexpected notice: {:?}", other),
    }
    assert_eq!(monitor.phase(), Phase::SamplingContainers);
    let step = monitor.step(Event::Inventory(Ok(vec![container("a", false)])), now()).unwrap();
    assert_eq!(
        sent(&step),
        (0, "Container".to_string(), "Container svc-a is not running".to_string())
    );
}

#[test]
fn a_failing_inventory_source_ends_the_cycle() {
    let mut monitor = Monitor::new(limits(), 1);
    monitor.step(Event::Tick, now()).unwrap();
    monitor.step(Event::Metrics(Ok(calm())), now()).unwrap();
    let failure = ContainerError::MonitoringError("timed out".to_string());
    let step = monitor.step(Event::Inventory(Err(failure)), now()).unwrap();
    assert!(matches!(step.action, Action::Sleep));
    assert!(matches!(
        step.notice,
        Some(Notice::InventoryFailed(ContainerError::MonitoringError(_)))
    ));
    assert_eq!(monitor.phase(), Phase::Waiting);
}

#[test]
fn each_stopped_container_is_reported_to_every_channel() {
    let mut monitor = Monitor::new(limits(), 2);
    monitor.step(Event::Tick, now()).unwrap();
    monitor.step(Event::Metrics(Ok(calm())), now()).unwrap();
    let listing = vec![
        container("a", false),
        container("b", true),
        container("c", false),
        container("d", false),
    ];
    let mut step = monitor.step(Event::Inventory(Ok(listing)), now()).unwrap();
    assert_eq!(monitor.phase(), Phase::DispatchingContainers);
    let mut asked = Vec::new();
    let mut failures = 0;
    while let Action::Send { channel, alert } = &step.action {
        assert_eq!(alert.severity, AlertSeverity::Critical);
        assert_eq!(alert.source, "Container");
        asked.push((alert.message.clone(), *channel));
        let outcome = if asked.len() % 2 == 0 { refused() } else { Ok(()) };
        step = monitor.step(Event::Delivery(outcome), now()).unwrap();
        if step.notice.is_some() {
            failures += 1;
        }
    }
    assert!(matches!(step.action, Action::Sleep));
    assert_eq!(monitor.phase(), Phase::Waiting);
    assert_eq!(failures, 3);
    assert_eq!(
        asked,
        vec![
            ("Container svc-a is not running".to_string(), 0),
            ("Container svc-a is not running".to_string(), 1),
            ("Container svc-c is not running".to_string(), 0),
            ("Container svc-c is not running".to_string(), 1),
            ("Container svc-d is not running".to_string(), 0),
            ("Container svc-d is not running".to_string(), 1),
        ]
    );
}

#[test]
fn without_channels_nothing_is_sent() {
    let mut monitor = Monitor::new(limits(), 0);
    monitor.step(Event::Tick, now()).unwrap();
    let step = monitor.step(Event::Metrics(Ok(hot())), now()).unwrap();
    assert!(matches!(step.action, Action::ListContainers));
    match &step.notice {
        Some(Notice::Undelivered(alerts)) => {
            assert_eq!(alerts.len(), 1);
            assert_eq!(alerts[0].source, "CPU");
        }
        other => panic!("unexpected notice: {:?}", other),
    }
    assert_eq!(step.notice.unwrap().log_line(), "No channel registered: 1 alert(s) not sent");
    let listing = vec![container("a", false), container("b", true), container("c", false)];
    let step = monitor.step(Event::Inventory(Ok(listing)), now()).unwrap();
    assert!(matches!(step.action, Action::Sleep));
    assert_eq!(step.notice.unwrap().log_line(), "No channel registered: 2 alert(s) not sent");
    assert_eq!(monitor.phase(), Phase::Waiting);
    monitor.step(Event::Tick, now()).unwrap();
    let step = monitor.step(Event::Metrics(Ok(calm())), now()).unwrap();
    assert!(step.notice.is_none());
    let step = monitor.step(Event::Inventory(Ok(vec![container("b", true)])), now()).unwrap();
    assert!(step.notice.is_none());
}

#[test]
fn an_event_out_of_turn_changes_nothing() {
    let mut monitor = Monitor::new(limits(), 1);
    assert!(monitor.step(Event::Delivery(Ok(())), now()).is_none());
    assert!(monitor.step(Event::Metrics(Ok(hot())), now()).is_none());
    assert!(monitor.step(Event::Inventory(Ok(vec![])), now()).is_none());
    assert_eq!(monitor.phase(), Phase::Waiting);
    monitor.step(Event::Tick, now()).unwrap();
    assert!(monitor.step(Event::Tick, now()).is_none());
    assert!(monitor.step(Event::Inventory(Ok(vec![])), now()).is_none());
    assert_eq!(monitor.phase(), Phase::SamplingResources);
    let step = monitor.step(Event::Metrics(Ok(hot())), now()).unwrap();
    assert_eq!(sent(&step).0, 0);
    assert!(monitor.step(Event::Tick, now()).is_none());
    assert!(monitor.step(Event::Metrics(Ok(hot())), now()).is_none());
    assert_eq!(monitor.phase(), Phase::DispatchingResources);
    let step = monitor.step(Event::Delivery(Ok(())), now()).unwrap();
    assert!(matches!(step.action, Action::ListContainers));
    assert!(monitor.step(Event::Delivery(Ok(())), now()).is_none());
    assert_eq!(monitor.phase(), Phase::SamplingContainers);
}

#[test]
fn stepping_by_the_clock_stamps_the_alert() {
    let mut monitor = Monitor::new(limits(), 1);
    monitor.step_now(Event::Tick).unwrap();
    let step = monitor.step_now(Event::Metrics(Ok(hot()))).unwrap();
    match step.action {
        Action::Send { channel, alert } => {
            assert_eq!(channel, 0);
            assert_eq!(alert.message, "High CPU usage: 85.0%");
            assert!(alert.timestamp.secs > 1_600_000_000);
        }
        other => panic!("expected a send, got {:?}", other),
    }
}

#[test]
fn notices_read_as_log_lines() {
    let mut monitor = Monitor::new(limits(), 12);
    monitor.step(Event::Tick, now()).unwrap();
    let step = monitor
        .step(Event::Metrics(Err(ResourceError::MetricsCollectionError("x".to_string()))), now())
        .unwrap();
    assert_eq!(step.notice.unwrap().log_line(), "Failed to collect system metrics: x");
    let mut step = monitor.step(Event::Inventory(Ok(vec![container("a", false)])), now()).unwrap();
    for _ in 0..10 {
        step = monitor.step(Event::Delivery(Ok(())), now()).unwrap();
        assert!(step.notice.is_none());
    }
    assert_eq!(sent(&step).0, 10);
    let step = monitor.step(Event::Delivery(refused()), now()).unwrap();
    assert_eq!(
        step.notice.unwrap().log_line(),
        "Failed to send Slack notification: status 500 (channel 10, Container: Container svc-a is not running)"
    );
    monitor.step(Event::Delivery(Ok(())), now()).unwrap();
    monitor.step(Event::Tick, now()).unwrap();
    monitor.step(Event::Metrics(Ok(calm())), now()).unwrap();
    let step = monitor
        .step(Event::Inventory(Err(ContainerError::ConnectionError("gone".to_string()))), now())
        .unwrap();
    assert_eq!(step.notice.unwrap().log_line(), "Docker connection error: gone");
}
