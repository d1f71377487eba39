use server_checker::probe::classify;
use server_checker::probe::ProbeConfig;
use server_checker::probe::ProbeEvent;
use server_checker::probe::ProbeOutcome;
use server_checker::render::decimal_string;
use server_checker::render::render_record;
use server_checker::render::render_records;
use server_checker::render::response_time_string;
use server_checker::render::status_label;
use server_checker::render::success_detail;
use server_checker::report::build_report;
use server_checker::report::make_result;

#[test]
fn config_keeps_its_fields() {
    let config = ProbeConfig::new(8080, 2000);
    assert_eq!(config.port, 8080);
    assert_eq!(config.timeout_ms, 2000);
}

#[test]
fn classify_connected_is_reachable() {
    let outcome = classify(&ProbeEvent::Connected { elapsed_ms: 42 });
    match outcome {
        ProbeOutcome::Reachable { elapsed_ms } => assert_eq!(elapsed_ms, 42),
        ProbeOutcome::Unreachable { .. } => panic!("a completed connection must be reachable"),
    }
}

#[test]
fn classify_failure_keeps_its_detail() {
    let outcome = classify(&ProbeEvent::Failed {
        detail: "connection refused".to_string(),
    });
    match outcome {
        ProbeOutcome::Reachable { .. } => panic!("a failed attempt must be unreachable"),
        ProbeOutcome::Unreachable { detail } => assert_eq!(detail, "connection refused"),
    }
}

#[test]
fn classify_timeout_has_timeout_detail() {
    let outcome = classify(&ProbeEvent::TimedOut);
    match outcome {
        ProbeOutcome::Reachable { .. } => panic!("an expired timeout must be unreachable"),
        ProbeOutcome::Unreachable { detail } => assert_eq!(detail, "timeout reached"),
    }
}

#[test]
fn make_result_pairs_host_and_outcome() {
    let host = "server-alpha.com".to_string();
    let result = make_result(&host, &ProbeEvent::Connected { elapsed_ms: 7 });
    assert_eq!(result.host, "server-alpha.com");
    assert!(matches!(result.outcome, ProbeOutcome::Reachable { elapsed_ms: 7 }));
}

#[test]
fn report_has_one_result_per_host() {
    let hosts = vec![
        "server-alpha.com".to_string(),
        "server-beta.com".to_string(),
        "server-down.com".to_string(),
    ];
    let events = vec![
        ProbeEvent::Connected { elapsed_ms: 3 },
        ProbeEvent::TimedOut,
        ProbeEvent::Failed {
            detail: "no route to host".to_string(),
        },
    ];
    let report = build_report(&hosts, &events);
    assert_eq!(report.len(), 3);
    assert!(!report.is_empty());
    assert_eq!(report.get(0).host, "server-alpha.com");
    assert!(matches!(report.get(0).outcome, ProbeOutcome::Reachable { elapsed_ms: 3 }));
    assert_eq!(report.get(1).host, "server-beta.com");
    match &report.get(1).outcome {
        ProbeOutcome::Unreachable { detail } => assert_eq!(detail, "timeout reached"),
        ProbeOutcome::Reachable { .. } => panic!("timed-out host reported reachable"),
    }
    assert_eq!(report.get(2).host, "server-down.com");
    match &report.get(2).outcome {
        ProbeOutcome::Unreachable { detail } => assert_eq!(detail, "no route to host"),
        ProbeOutcome::Reachable { .. } => panic!("failed host reported reachable"),
    }
}

#[test]
fn report_keeps_duplicate_hosts() {
    let hosts = vec!["twin.example".to_string(), "twin.example".to_string()];
    let events = vec![
        ProbeEvent::Connected { elapsed_ms: 1 },
        ProbeEvent::TimedOut,
    ];
    let report = build_report(&hosts, &events);
    assert_eq!(report.len(), 2);
    assert_eq!(report.get(0).host, "twin.example");
    assert_eq!(report.get(1).host, "twin.example");
}

#[test]
fn empty_host_list_gives_empty_report() {
    let hosts: Vec<String> = vec![];
    let events: Vec<ProbeEvent> = vec![];
    let report = build_report(&hosts, &events);
    assert_eq!(report.len(), 0);
    assert!(report.is_empty());
    assert_eq!(report.reachable_count(), 0);
    assert_eq!(report.unreachable_count(), 0);
}

#[test]
fn counts_split_the_report() {
    let hosts = vec![
        "a.example".to_string(),
        "b.example".to_string(),
        "c.example".to_string(),
        "d.example".to_string(),
    ];
    let events = vec![
        ProbeEvent::Connected { elapsed_ms: 10 },
        ProbeEvent::TimedOut,
        ProbeEvent::Connected { elapsed_ms: 20 },
        ProbeEvent::Failed {
            detail: "name resolution failed".to_string(),
        },
    ];
    let report = build_report(&hosts, &events);
    assert_eq!(report.reachable_count(), 2);
    assert_eq!(report.unreachable_count(), 2);
}

#[test]
fn into_results_keeps_every_record() {
    let hosts = vec!["a.example".to_string(), "b.example".to_string()];
    let events = vec![
        ProbeEvent::TimedOut,
        ProbeEvent::Connected { elapsed_ms: 8 },
    ];
    let results = build_report(&hosts, &events).into_results();
    assert_eq!(results.len(), 2);
    assert_eq!(results[0].host, "a.example");
    assert!(matches!(results[1].outcome, ProbeOutcome::Reachable { elapsed_ms: 8 }));
}

#[test]
fn decimal_rendering_is_exact() {
    assert_eq!(decimal_string(0), "0");
    assert_eq!(decimal_string(9), "9");
    assert_eq!(decimal_string(10), "10");
    assert_eq!(decimal_string(407), "407");
    assert_eq!(decimal_string(1000000), "1000000");
    assert_eq!(decimal_string(u64::MAX), "18446744073709551615");
}

#[test]
fn status_labels_are_exact() {
    assert_eq!(status_label(&ProbeOutcome::Reachable { elapsed_ms: 1 }), "Online");
    assert_eq!(
        status_label(&ProbeOutcome::Unreachable {
            detail: "timeout reached".to_string(),
        }),
        "Offline"
    );
}

#[test]
fn response_time_field_is_exact() {
    assert_eq!(response_time_string(&ProbeOutcome::Reachable { elapsed_ms: 12 }), "12ms");
    assert_eq!(
        response_time_string(&ProbeOutcome::Unreachable {
            detail: "timeout reached".to_string(),
        }),
        "N/A"
    );
}

#[test]
fn success_detail_names_the_port() {
    assert_eq!(success_detail(80), "connection on port 80 succeeded");
    assert_eq!(success_detail(65535), "connection on port 65535 succeeded");
}

#[test]
fn rendered_record_fields_are_exact() {
    let reachable = make_result(
        &"up.example".to_string(),
        &ProbeEvent::Connected { elapsed_ms: 31 },
    );
    let record = render_record(&reachable, 443);
    assert_eq!(record.server, "up.example");
    assert_eq!(record.status, "Online");
    assert_eq!(record.response_time, "31ms");
    assert_eq!(record.details, "connection on port 443 succeeded");

    let timed_out = make_result(&"slow.example".to_string(), &ProbeEvent::TimedOut);
    let record = render_record(&timed_out, 443);
    assert_eq!(record.server, "slow.example");
    assert_eq!(record.status, "Offline");
    assert_eq!(record.response_time, "N/A");
    assert_eq!(record.details, "timeout reached");

    let refused = make_result(
        &"closed.example".to_string(),
        &ProbeEvent::Failed {
            detail: "connection refused".to_string(),
        },
    );
    let record = render_record(&refused, 443);
    assert_eq!(record.server, "closed.example");
    assert_eq!(record.status, "Offline");
    assert_eq!(record.response_time, "N/A");
    assert_eq!(record.details, "connection refused");
}

#[test]
fn rendering_a_batch_keeps_order_and_length() {
    let hosts = vec!["one.example".to_string(), "two.example".to_string()];
    let events = vec![
        ProbeEvent::Connected { elapsed_ms: 4 },
        ProbeEvent::TimedOut,
    ];
    let report = build_report(&hosts, &events);
    let records = render_records(report.results(), 80);
    assert_eq!(records.len(), 2);
    assert_eq!(records[0].server, "one.example");
    assert_eq!(records[0].status, "Online");
    assert_eq!(records[1].server, "two.example");
    assert_eq!(records[1].response_time, "N/A");
}
