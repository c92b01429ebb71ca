use bitaxe_monitor::detect::{detect_changes, Displayed, Margins, Metrics, MonitorState, Thresholds};
use bitaxe_monitor::events::{outcome_records, EventKind};
use bitaxe_monitor::ieee::Binary64;

fn b(x: f64) -> Binary64 {
    Binary64(x.to_bits())
}

fn f(x: Binary64) -> f64 {
    f64::from_bits(x.0)
}

// The floating-point differences, taken as the monitor takes them.
fn margins(state: &MonitorState, d: &Displayed, m: &Metrics, t: &Thresholds) -> Margins {
    Margins {
        boot_best_dropped: state
            .last_displayed_boot_best
            .map_or(false, |p| f(d.boot_best) + f64::EPSILON < f(p)),
        hashrate_gain_reached: match (m.hashrate_ths, state.tool_best_hashrate_ths) {
            (Some(h), Some(p)) => f(h) - f(p) >= f(t.epsilon_hashrate_ths),
            _ => false,
        },
        efficiency_gain_reached: match (m.efficiency_j_per_th, state.tool_best_efficiency_j_per_th) {
            (Some(e), Some(p)) => f(p) - f(e) >= f(t.epsilon_efficiency_j_per_th),
            _ => false,
        },
    }
}

fn run(state: &mut MonitorState, d: Displayed, m: Metrics, t: Thresholds) -> bitaxe_monitor::detect::DetectionOutcome {
    let g = margins(state, &d, &m, &t);
    detect_changes(state, d, m, g)
}

fn eps() -> Thresholds {
    Thresholds { epsilon_hashrate_ths: b(0.01), epsilon_efficiency_j_per_th: b(0.01) }
}

fn metrics(uptime: Option<u64>, id: Option<&str>) -> Metrics {
    Metrics {
        uptime_secs: uptime,
        boot_id: id.map(|s| s.to_string()),
        hashrate_ths: None,
        efficiency_j_per_th: None,
    }
}

#[test]
fn test_detect_changes_boot_and_bests() {
    let mut state = MonitorState::new();
    let out1 = run(&mut state, Displayed { all_time: b(10.0), boot_best: b(5.0) }, metrics(Some(100), None), eps());
    assert!(out1.new_device_all_time_best.is_some());
    assert!(out1.new_device_boot_best.is_some());
    assert!(out1.new_tool_all_time_best.is_some());

    let out2 = run(&mut state, Displayed { all_time: b(10.0), boot_best: b(6.0) }, metrics(Some(110), None), eps());
    assert!(out2.new_device_boot_best.is_some());

    let out3 = run(&mut state, Displayed { all_time: b(9.0), boot_best: b(4.0) }, metrics(Some(10), None), eps());
    assert!(out3.boot_detected);
}

#[test]
fn test_detect_changes_boot_id_priority() {
    let mut state = MonitorState::new();
    let _ = run(&mut state, Displayed { all_time: b(1.0), boot_best: b(1.0) }, metrics(Some(50), Some("A")), eps());
    let out = run(&mut state, Displayed { all_time: b(1.1), boot_best: b(1.1) }, metrics(Some(60), Some("B")), eps());
    assert!(out.boot_detected);
}

#[test]
fn uptime_drop_without_identifiers_is_a_reboot() {
    let mut state = MonitorState::new();
    let first = run(&mut state, Displayed { all_time: b(3.0), boot_best: b(3.0) }, metrics(Some(100), None), eps());
    assert!(!first.boot_detected);
    let out = run(&mut state, Displayed { all_time: b(3.0), boot_best: b(3.0) }, metrics(Some(10), None), eps());
    assert!(out.boot_detected);
}

#[test]
fn boot_best_drop_without_signals_is_a_reboot() {
    let mut state = MonitorState::new();
    let _ = run(&mut state, Displayed { all_time: b(8.0), boot_best: b(5.0) }, metrics(None, None), eps());
    let out = run(&mut state, Displayed { all_time: b(8.0), boot_best: b(4.0) }, metrics(None, None), eps());
    assert!(out.boot_detected);
    assert_eq!(out.new_device_boot_best, None);
    assert_eq!(state.last_displayed_boot_best, Some(b(4.0)));
}

#[test]
fn rising_uptime_hides_boot_best_drop() {
    let mut state = MonitorState::new();
    let _ = run(&mut state, Displayed { all_time: b(8.0), boot_best: b(5.0) }, metrics(Some(100), None), eps());
    let out = run(&mut state, Displayed { all_time: b(8.0), boot_best: b(4.0) }, metrics(Some(200), None), eps());
    assert!(!out.boot_detected);
}

#[test]
fn same_boot_id_is_no_reboot_and_marker_is_recorded() {
    let mut state = MonitorState::new();
    let _ = run(&mut state, Displayed { all_time: b(1.0), boot_best: b(1.0) }, metrics(Some(50), Some("A")), eps());
    assert_eq!(state.last_boot_marker.as_deref(), Some("A"));
    let out = run(&mut state, Displayed { all_time: b(1.0), boot_best: b(1.0) }, metrics(Some(60), Some("A")), eps());
    assert!(!out.boot_detected);
    let _ = run(&mut state, Displayed { all_time: b(1.0), boot_best: b(1.0) }, metrics(Some(70), None), eps());
    assert_eq!(state.last_boot_marker.as_deref(), Some("uptime:70"));
    assert_eq!(state.last_uptime_secs, Some(70));
}

#[test]
fn uptime_marker_is_not_compared_with_a_boot_id() {
    let mut state = MonitorState::new();
    let _ = run(&mut state, Displayed { all_time: b(1.0), boot_best: b(1.0) }, metrics(Some(50), None), eps());
    let out = run(&mut state, Displayed { all_time: b(1.0), boot_best: b(1.0) }, metrics(Some(60), Some("B")), eps());
    assert!(!out.boot_detected);
}

#[test]
fn equal_or_lower_boot_best_is_no_event_but_is_stored() {
    let mut state = MonitorState::new();
    let first = run(&mut state, Displayed { all_time: b(10.0), boot_best: b(6.0) }, metrics(Some(1), None), eps());
    assert_eq!(first.new_device_boot_best, Some(b(6.0)));
    assert_eq!(first.new_device_all_time_best, Some(b(10.0)));
    let same = run(&mut state, Displayed { all_time: b(10.0), boot_best: b(6.0) }, metrics(Some(2), None), eps());
    assert_eq!(same.new_device_boot_best, None);
    assert_eq!(same.new_device_all_time_best, None);
    let lower = run(&mut state, Displayed { all_time: b(10.0), boot_best: b(5.5) }, metrics(Some(3), None), eps());
    assert_eq!(lower.new_device_boot_best, None);
    assert_eq!(state.last_displayed_boot_best, Some(b(5.5)));
    let higher = run(&mut state, Displayed { all_time: b(10.0), boot_best: b(7.0) }, metrics(Some(4), None), eps());
    assert_eq!(higher.new_device_boot_best, Some(b(7.0)));
}

#[test]
fn hashrate_hysteresis() {
    let mut state = MonitorState::new();
    let mut m = metrics(None, None);
    m.hashrate_ths = Some(b(1.0));
    let first = run(&mut state, Displayed { all_time: b(1.0), boot_best: b(1.0) }, m.clone(), eps());
    assert_eq!(first.new_tool_best_hashrate_ths, Some(b(1.0)));
    m.hashrate_ths = Some(b(1.005));
    let small = run(&mut state, Displayed { all_time: b(1.0), boot_best: b(1.0) }, m.clone(), eps());
    assert_eq!(small.new_tool_best_hashrate_ths, None);
    assert_eq!(state.tool_best_hashrate_ths, Some(b(1.0)));
    m.hashrate_ths = Some(b(1.02));
    let big = run(&mut state, Displayed { all_time: b(1.0), boot_best: b(1.0) }, m.clone(), eps());
    assert_eq!(big.new_tool_best_hashrate_ths, Some(b(1.02)));
    assert_eq!(state.tool_best_hashrate_ths, Some(b(1.02)));
}

#[test]
fn efficiency_hysteresis_and_non_finite_skipped() {
    let mut state = MonitorState::new();
    let mut m = metrics(None, None);
    m.efficiency_j_per_th = Some(b(16.0));
    let first = run(&mut state, Displayed { all_time: b(1.0), boot_best: b(1.0) }, m.clone(), eps());
    assert_eq!(first.new_tool_best_efficiency_j_per_th, Some(b(16.0)));
    m.efficiency_j_per_th = Some(b(15.995));
    let small = run(&mut state, Displayed { all_time: b(1.0), boot_best: b(1.0) }, m.clone(), eps());
    assert_eq!(small.new_tool_best_efficiency_j_per_th, None);
    m.efficiency_j_per_th = Some(b(15.9));
    let big = run(&mut state, Displayed { all_time: b(1.0), boot_best: b(1.0) }, m.clone(), eps());
    assert_eq!(big.new_tool_best_efficiency_j_per_th, Some(b(15.9)));
    m.efficiency_j_per_th = Some(b(f64::NAN));
    m.hashrate_ths = Some(b(f64::INFINITY));
    let skipped = run(&mut state, Displayed { all_time: b(1.0), boot_best: b(1.0) }, m.clone(), eps());
    assert_eq!(skipped.new_tool_best_efficiency_j_per_th, None);
    assert_eq!(skipped.new_tool_best_hashrate_ths, None);
    assert_eq!(state.tool_best_efficiency_j_per_th, Some(b(15.9)));
    assert_eq!(state.tool_best_hashrate_ths, None);
}

#[test]
fn global_best_survives_device_reset() {
    let mut state = MonitorState::new();
    let out = run(&mut state, Displayed { all_time: b(12.0), boot_best: b(20.0) }, metrics(Some(100), None), eps());
    assert_eq!(out.new_tool_all_time_best, Some(b(20.0)));
    let reset = run(&mut state, Displayed { all_time: b(1.0), boot_best: b(1.0) }, metrics(Some(5), None), eps());
    assert!(reset.boot_detected);
    assert_eq!(reset.new_tool_all_time_best, None);
    assert_eq!(state.tool_global_all_time_best, b(20.0));
}

#[test]
fn fresh_reading_end_to_end() {
    let mut state = MonitorState::new();
    let m = Metrics {
        uptime_secs: Some(300),
        boot_id: Some("B1".to_string()),
        hashrate_ths: Some(b(1.6)),
        efficiency_j_per_th: Some(b(15.8)),
    };
    let out = run(&mut state, Displayed { all_time: b(12.0), boot_best: b(9.0) }, m, eps());
    assert!(!out.boot_detected);
    assert_eq!(out.new_device_all_time_best, Some(b(12.0)));
    assert_eq!(out.new_device_boot_best, Some(b(9.0)));
    assert_eq!(out.new_tool_all_time_best, Some(b(12.0)));
    assert_eq!(out.new_tool_best_hashrate_ths, Some(b(1.6)));
    assert_eq!(out.new_tool_best_efficiency_j_per_th, Some(b(15.8)));
    let records = outcome_records(&out);
    let kinds: Vec<EventKind> = records.iter().map(|r| r.kind).collect();
    assert_eq!(
        kinds,
        vec![
            EventKind::NewDeviceBootBest,
            EventKind::NewDeviceAllTimeBest,
            EventKind::NewToolAllTimeBest,
            EventKind::NewToolBestHashrateThs,
            EventKind::NewToolBestEfficiencyJPerTh,
        ]
    );
    assert_eq!(records[2].value, Some(b(12.0)));
    assert_eq!(EventKind::NewToolBestHashrateThs.name(), "new_tool_best_hashrate_ths");
}

#[test]
fn boot_record_comes_first_and_has_no_value() {
    let mut state = MonitorState::new();
    let _ = run(&mut state, Displayed { all_time: b(2.0), boot_best: b(2.0) }, metrics(Some(100), None), eps());
    let out = run(&mut state, Displayed { all_time: b(3.0), boot_best: b(1.0) }, metrics(Some(1), None), eps());
    let records = outcome_records(&out);
    assert_eq!(records[0].kind, EventKind::BootDetected);
    assert_eq!(records[0].value, None);
    assert_eq!(records[1].kind, EventKind::NewDeviceAllTimeBest);
    assert_eq!(records.len(), 3);
    assert_eq!(EventKind::BootDetected.name(), "boot_detected");
}
