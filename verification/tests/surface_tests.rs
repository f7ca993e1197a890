use event_relay::registry::{apply_lifecycle_event, ConnectionRegistry, LifecycleEvent};
use event_relay::render::{dec_string, mb_string, ms_string, to_mebibytes};
use event_relay::surface::{
    health_check, health_response, metrics_check, metrics_response, root_response,
    send_event_response,
};

#[test]
fn decimal_rendering_matches_format() {
    assert_eq!(dec_string(0), "0");
    assert_eq!(dec_string(7), "7");
    assert_eq!(dec_string(10), "10");
    assert_eq!(dec_string(105), "105");
    assert_eq!(dec_string(u64::MAX), format!("{}", u64::MAX));
}

#[test]
fn mebibyte_rendering_rounds_down() {
    assert_eq!(to_mebibytes(1024 * 1024 - 1), 0);
    assert_eq!(mb_string(1024 * 1024 - 1), "0MB");
    assert_eq!(mb_string(300 * 1024 * 1024), "300MB");
    assert_eq!(ms_string(15), "15ms");
}

#[test]
fn root_descriptor_is_static() {
    let r = root_response();
    assert_eq!(r.status, "ok");
    assert_eq!(r.service, "WebSocket Server");
    assert_eq!(r.version, "1.0.0");
    assert_eq!(r.connected_clients, 0);
}

#[test]
fn health_report_fields() {
    let h = health_response(5, 300 * 1024 * 1024, 2048 * 1024 * 1024, 42, "now".to_string());
    assert_eq!(h.status, "healthy");
    assert_eq!(h.timestamp, "now");
    assert_eq!(h.uptime, 42);
    assert_eq!(h.connections, 5);
    assert_eq!(h.memory.rss, "300MB");
    assert_eq!(h.memory.heap_used, "300MB");
    assert_eq!(h.memory.heap_total, "2048MB");
}

#[test]
fn metrics_report_fields() {
    let m = metrics_response(3, 1000, 4000, 42, 1700000000000);
    assert_eq!(m.connected_clients, 3);
    assert_eq!(m.memory_usage.rss, 1000);
    assert_eq!(m.memory_usage.heap_used, 1000);
    assert_eq!(m.memory_usage.heap_total, 4000);
    assert_eq!(m.uptime, 42);
    assert_eq!(m.timestamp, 1700000000000);
}

#[test]
fn send_event_acknowledgement_fields() {
    let r = send_event_response(2, 15);
    assert_eq!(r.status, "success");
    assert_eq!(r.events_sent, 2);
    assert_eq!(r.duration, "15ms");
}

#[test]
fn health_check_reads_registry_and_host() {
    let mut reg = ConnectionRegistry::new();
    reg.register("a".to_string(), 1);
    reg.register("b".to_string(), 2);
    let mut system = sysinfo::System::new();
    let h = health_check(&reg, &mut system, 9);
    assert_eq!(h.status, "healthy");
    assert_eq!(h.uptime, 9);
    assert_eq!(h.connections, 2);
    assert_eq!(h.memory.rss, h.memory.heap_used);
    assert!(h.memory.rss.ends_with("MB"));
    assert!(!h.timestamp.is_empty());
}

#[test]
fn metrics_check_counts_transitions() {
    let mut reg = ConnectionRegistry::new();
    let mut system = sysinfo::System::new();
    let mut counts = vec![metrics_check(&reg, &mut system, 0, 0).connected_clients];
    for id in ["s1", "s2", "s3"] {
        apply_lifecycle_event(
            &mut reg,
            LifecycleEvent::Connected { id: id.to_string(), connected_at: 0 },
        );
        counts.push(metrics_check(&reg, &mut system, 0, 0).connected_clients);
    }
    apply_lifecycle_event(&mut reg, LifecycleEvent::Disconnected { id: "s1".to_string() });
    counts.push(metrics_check(&reg, &mut system, 0, 0).connected_clients);
    assert_eq!(counts, vec![0, 1, 2, 3, 2]);
}
