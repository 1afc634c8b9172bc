use ddc_handler::collect_monitors;
use ddc_handler::digits::index_string;
use ddc_handler::monitor::monitor_id_for;
use ddc_handler::monitor::BrightnessError;
use ddc_handler::monitor::MonitorProbe;
use ddc_handler::monitor::VcpValue;
use ddc_handler::scale_brightness;
use ddc_handler::set_brightness;

fn ok_probe(serial: Option<&str>, product: Option<&str>, current: u16) -> MonitorProbe {
    MonitorProbe {
        serial: serial.map(|s| s.to_string()),
        product: product.map(|s| s.to_string()),
        reading: Ok(VcpValue { current, maximum: 100 }),
    }
}

#[test]
fn scale_truncates_toward_zero() {
    assert_eq!(scale_brightness(65535, 50), 32767);
    assert_eq!(scale_brightness(100, 33), 33);
}

#[test]
fn scale_edges() {
    assert_eq!(scale_brightness(0, 0), 0);
    assert_eq!(scale_brightness(0, 100), 0);
    assert_eq!(scale_brightness(65535, 0), 0);
    assert_eq!(scale_brightness(65535, 100), 65535);
    assert_eq!(scale_brightness(255, 50), 127);
    assert_eq!(scale_brightness(1, 99), 0);
}

#[test]
fn invalid_percent_rejected_with_monitors() {
    let serials = vec![Some("a".to_string()), None];
    let r = set_brightness(101, None, Some(serials));
    assert!(matches!(r, Err(BrightnessError::InvalidArgument)));
}

#[test]
fn invalid_percent_rejected_regardless_of_state() {
    assert!(matches!(
        set_brightness(101, None, None),
        Err(BrightnessError::InvalidArgument)
    ));
    assert!(matches!(
        set_brightness(65535, Some("a".to_string()), Some(vec![])),
        Err(BrightnessError::InvalidArgument)
    ));
    assert!(matches!(
        set_brightness(101, Some("a".to_string()), Some(vec![Some("a".to_string())])),
        Err(BrightnessError::InvalidArgument)
    ));
}

#[test]
fn percent_100_accepted() {
    let r = set_brightness(100, None, Some(vec![None]));
    assert_eq!(r.ok(), Some(0));
}

#[test]
fn no_matching_target_is_not_found() {
    let serials = vec![Some("a".to_string()), None, Some("b".to_string())];
    let r = set_brightness(50, Some("zz".to_string()), Some(serials));
    match r {
        Err(BrightnessError::NotFound(Some(t))) => assert_eq!(t, "zz"),
        other => panic!("expected NotFound carrying the target id, got ok={:?}", other.is_ok()),
    }
}

#[test]
fn zero_monitors_is_not_found_with_target() {
    let r = set_brightness(50, Some("a".to_string()), Some(vec![]));
    match r {
        Err(BrightnessError::NotFound(Some(t))) => assert_eq!(t, "a"),
        other => panic!("expected NotFound carrying the target id, got ok={:?}", other.is_ok()),
    }
}

#[test]
fn zero_monitors_is_not_found_without_target() {
    let r = set_brightness(50, None, Some(vec![]));
    assert!(matches!(r, Err(BrightnessError::NotFound(None))));
}

#[test]
fn enumeration_failure_propagates() {
    assert!(matches!(
        set_brightness(50, None, None),
        Err(BrightnessError::Enumeration)
    ));
    assert!(matches!(
        set_brightness(50, Some("a".to_string()), None),
        Err(BrightnessError::Enumeration)
    ));
    assert!(matches!(
        collect_monitors(None),
        Err(BrightnessError::Enumeration)
    ));
}

#[test]
fn no_target_selects_only_the_first_of_three() {
    let serials = vec![
        Some("a".to_string()),
        Some("b".to_string()),
        Some("c".to_string()),
    ];
    let r = set_brightness(50, None, Some(serials));
    assert_eq!(r.ok(), Some(0));
}

#[test]
fn target_selects_the_matching_serial() {
    let serials = vec![Some("a".to_string()), Some("b".to_string()), None];
    let r = set_brightness(50, Some("b".to_string()), Some(serials));
    assert_eq!(r.ok(), Some(1));
}

#[test]
fn target_matches_positional_fallback_id() {
    let serials = vec![Some("a".to_string()), None, Some("b".to_string())];
    let r = set_brightness(50, Some("1".to_string()), Some(serials));
    assert_eq!(r.ok(), Some(1));
}

#[test]
fn earliest_match_wins() {
    let serials = vec![
        Some("dup".to_string()),
        Some("dup".to_string()),
        Some("dup".to_string()),
    ];
    let r = set_brightness(50, Some("dup".to_string()), Some(serials));
    assert_eq!(r.ok(), Some(0));
}

#[test]
fn listing_builds_records_in_order() {
    let probes = vec![
        ok_probe(Some("serial-a"), Some("Left"), 40),
        ok_probe(Some("serial-b"), Some("Right"), 70),
    ];
    let records = collect_monitors(Some(probes)).ok().unwrap();
    assert_eq!(records.len(), 2);
    assert_eq!(records[0].id, "serial-a");
    assert_eq!(records[0].name, "Left");
    assert_eq!(records[0].brightness, 40);
    assert_eq!(records[1].id, "serial-b");
    assert_eq!(records[1].name, "Right");
    assert_eq!(records[1].brightness, 70);
}

#[test]
fn listing_id_falls_back_to_position() {
    let probes = vec![ok_probe(Some("serial-a"), None, 10), ok_probe(None, None, 20)];
    let records = collect_monitors(Some(probes)).ok().unwrap();
    assert_eq!(records[0].id, "serial-a");
    assert_eq!(records[1].id, "1");
}

#[test]
fn listing_name_falls_back_to_placeholder() {
    let probes = vec![ok_probe(None, None, 10)];
    let records = collect_monitors(Some(probes)).ok().unwrap();
    assert_eq!(records[0].name, "Unknown monitor");
}

#[test]
fn listing_of_zero_monitors_is_empty_not_an_error() {
    let records = collect_monitors(Some(vec![])).ok().unwrap();
    assert!(records.is_empty());
}

#[test]
fn one_unreadable_monitor_aborts_the_listing() {
    let probes = vec![
        ok_probe(Some("serial-a"), Some("Left"), 40),
        MonitorProbe {
            serial: Some("serial-b".to_string()),
            product: None,
            reading: Err("transport fault".to_string()),
        },
        MonitorProbe {
            serial: None,
            product: None,
            reading: Err("second fault".to_string()),
        },
    ];
    match collect_monitors(Some(probes)) {
        Err(BrightnessError::Protocol(m)) => assert_eq!(m, "transport fault"),
        other => panic!("expected the first protocol error, got {:?}", other.is_ok()),
    }
}

#[test]
fn index_strings_are_decimal() {
    assert_eq!(index_string(0), "0");
    assert_eq!(index_string(1), "1");
    assert_eq!(index_string(9), "9");
    assert_eq!(index_string(10), "10");
    assert_eq!(index_string(12345), "12345");
}

#[test]
fn monitor_id_prefers_the_serial() {
    assert_eq!(monitor_id_for(Some("serial-a".to_string()), 3), "serial-a");
    assert_eq!(monitor_id_for(None, 3), "3");
}
