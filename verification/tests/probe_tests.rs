use gateway_probe::address::{address_string, begin_run, derive_target_address, HostAddress};
use gateway_probe::probe::{
    classify_probe, collect_results, default_port_plan, http_probe_request, is_http_port,
    read_buffer_size, render_result, run_report, ConnectOutcome, ProbeResult,
    CONNECT_TIMEOUT_SECS,
};
use gateway_probe::probe::banner_line;
use gateway_probe::text::decimal_string;

#[test]
fn derive_preserves_prefix_and_sets_final_octet() {
    let host = HostAddress { o0: 192, o1: 168, o2: 1, o3: 37 };
    let target = derive_target_address(host);
    assert_eq!(target.o0, 192);
    assert_eq!(target.o1, 168);
    assert_eq!(target.o2, 1);
    assert_eq!(target.o3, 1);
}

#[test]
fn derived_target_for_10_0_0_55() {
    let host = HostAddress { o0: 10, o1: 0, o2: 0, o3: 55 };
    let target = derive_target_address(host);
    assert_eq!(address_string(&target), "10.0.0.1");
}

#[test]
fn begin_run_without_host_address_yields_no_target() {
    assert!(begin_run(None).is_none());
}

#[test]
fn begin_run_with_host_address_derives_target() {
    let host = HostAddress { o0: 172, o1: 16, o2: 5, o3: 200 };
    let target = begin_run(Some(host)).unwrap();
    assert_eq!(address_string(&target), "172.16.5.1");
}

#[test]
fn run_without_probes_has_empty_log() {
    let ports: Vec<u16> = Vec::new();
    let outcomes: Vec<ConnectOutcome> = Vec::new();
    let log = collect_results(&ports, outcomes);
    assert!(log.is_empty());
}

#[test]
fn port_plan_is_fixed_and_ordered() {
    assert_eq!(default_port_plan(), vec![80u16, 443, 23, 22, 8080]);
}

#[test]
fn connect_timeout_is_three_seconds() {
    assert_eq!(CONNECT_TIMEOUT_SECS, 3);
}

#[test]
fn http_ports_get_the_http_probe() {
    assert!(is_http_port(80));
    assert!(is_http_port(443));
    assert!(is_http_port(8080));
    assert!(!is_http_port(22));
    assert!(!is_http_port(23));
}

#[test]
fn http_probe_request_text() {
    assert_eq!(http_probe_request(), "GET / HTTP/1.0\r\nHost: router\r\n\r\n");
}

#[test]
fn read_buffer_sizes() {
    assert_eq!(read_buffer_size(80), 4096);
    assert_eq!(read_buffer_size(443), 4096);
    assert_eq!(read_buffer_size(8080), 4096);
    assert_eq!(read_buffer_size(22), 512);
    assert_eq!(read_buffer_size(23), 512);
}

#[test]
fn refused_connection_is_recorded_closed() {
    let r = classify_probe(22, ConnectOutcome::NoConnection);
    assert!(matches!(r, ProbeResult::Closed { port: 22 }));
}

#[test]
fn refused_port_22_log_line() {
    let host = HostAddress { o0: 192, o1: 168, o2: 1, o3: 42 };
    let target = derive_target_address(host);
    assert_eq!(address_string(&target), "192.168.1.1");
    let ports: Vec<u16> = vec![22];
    let outcomes = vec![ConnectOutcome::NoConnection];
    let log = collect_results(&ports, outcomes);
    assert_eq!(log, vec!["Port 22: closed or unreachable".to_string()]);
}

#[test]
fn open_port_80_with_echoed_response() {
    let ports: Vec<u16> = vec![80];
    let banner = b"HTTP/1.1 200 OK\r\n\r\nHello".to_vec();
    let outcomes = vec![ConnectOutcome::Connected { read: Some(banner) }];
    let log = collect_results(&ports, outcomes);
    assert_eq!(
        log,
        vec![
            "Port 80: OPEN".to_string(),
            "Port 80 banner:\nHTTP/1.1 200 OK\r\n\r\nHello".to_string(),
        ]
    );
}

#[test]
fn open_port_with_zero_bytes_has_status_line_only() {
    let r = classify_probe(80, ConnectOutcome::Connected { read: Some(Vec::new()) });
    assert!(matches!(r, ProbeResult::OpenNoBanner { port: 80 }));
    let lines = render_result(&r);
    assert_eq!(lines, vec!["Port 80: OPEN".to_string()]);
}

#[test]
fn open_port_with_failed_read_has_status_line_only() {
    let r = classify_probe(23, ConnectOutcome::Connected { read: None });
    assert!(matches!(r, ProbeResult::OpenNoBanner { port: 23 }));
    let lines = render_result(&r);
    assert_eq!(lines, vec!["Port 23: OPEN".to_string()]);
}

#[test]
fn malformed_banner_bytes_are_replaced_and_probing_continues() {
    let ports: Vec<u16> = vec![23, 22];
    let outcomes = vec![
        ConnectOutcome::Connected { read: Some(vec![0xff, 0xfe, b'H', b'i']) },
        ConnectOutcome::NoConnection,
    ];
    let log = collect_results(&ports, outcomes);
    assert_eq!(
        log,
        vec![
            "Port 23: OPEN".to_string(),
            "Port 23 banner:\n\u{fffd}\u{fffd}Hi".to_string(),
            "Port 22: closed or unreachable".to_string(),
        ]
    );
}

#[test]
fn one_status_entry_per_planned_port() {
    let ports = default_port_plan();
    let outcomes = vec![
        ConnectOutcome::Connected { read: Some(b"hello".to_vec()) },
        ConnectOutcome::NoConnection,
        ConnectOutcome::Connected { read: None },
        ConnectOutcome::NoConnection,
        ConnectOutcome::Connected { read: Some(Vec::new()) },
    ];
    let report = run_report(&ports, outcomes);
    assert_eq!(report.len(), ports.len());
    let recorded: Vec<u16> = report
        .iter()
        .map(|r| match r {
            ProbeResult::OpenWithBanner { port, .. } => *port,
            ProbeResult::OpenNoBanner { port } => *port,
            ProbeResult::Closed { port } => *port,
        })
        .collect();
    assert_eq!(recorded, vec![80u16, 443, 23, 22, 8080]);
}

#[test]
fn full_run_log_in_probe_order() {
    let ports = default_port_plan();
    let outcomes = vec![
        ConnectOutcome::Connected { read: Some(b"web".to_vec()) },
        ConnectOutcome::NoConnection,
        ConnectOutcome::Connected { read: None },
        ConnectOutcome::NoConnection,
        ConnectOutcome::Connected { read: Some(Vec::new()) },
    ];
    let log = collect_results(&ports, outcomes);
    assert_eq!(
        log,
        vec![
            "Port 80: OPEN".to_string(),
            "Port 80 banner:\nweb".to_string(),
            "Port 443: closed or unreachable".to_string(),
            "Port 23: OPEN".to_string(),
            "Port 22: closed or unreachable".to_string(),
            "Port 8080: OPEN".to_string(),
        ]
    );
}

#[test]
fn decimal_rendering_exact_values() {
    assert_eq!(decimal_string(0), "0");
    assert_eq!(decimal_string(7), "7");
    assert_eq!(decimal_string(80), "80");
    assert_eq!(decimal_string(8080), "8080");
    assert_eq!(decimal_string(65535), "65535");
}

#[test]
fn lossy_decoding_replaces_invalid_sequences() {
    assert_eq!(banner_line(80, b"plain"), "Port 80 banner:\nplain");
    assert_eq!(banner_line(443, &[0xc3, 0x28]), "Port 443 banner:\n\u{fffd}(");
}
