use bitaxe_monitor::config::JsonPointers;
use bitaxe_monitor::detect::{detect_changes, Displayed, Margins, Metrics, MonitorState};
use bitaxe_monitor::extract::{
    efficiency_source, extract_metrics, EfficiencySource, ExtractionError, Field, JsonNumber,
    JsonScalar, Lookups,
};
use bitaxe_monitor::ieee::Binary64;
use bitaxe_monitor::number::{number_token, scale_of, split_suffix, ParseError};

fn b(x: f64) -> Binary64 {
    Binary64(x.to_bits())
}

fn num_f(x: f64) -> JsonScalar {
    JsonScalar::Number(JsonNumber { as_u64: None, as_f64: Some(b(x)), text: x.to_string() })
}

fn num_u(x: u64) -> JsonScalar {
    JsonScalar::Number(JsonNumber { as_u64: Some(x), as_f64: Some(b(x as f64)), text: x.to_string() })
}

// What the number parser makes of a string, built from the library's steps.
fn parse_text(s: &str) -> Result<Binary64, ParseError> {
    let token = number_token(s)?;
    if let Ok(v) = token.parse::<f64>() {
        return Ok(b(v));
    }
    match split_suffix(&token) {
        Some((head, unit)) => {
            let base: f64 = head.trim().parse().map_err(|_| ParseError::InvalidNumber)?;
            let scale = scale_of(unit)?;
            Ok(b(base * scale as f64))
        }
        None => Err(ParseError::InvalidNumber),
    }
}

fn text(s: &str) -> JsonScalar {
    JsonScalar::Text { text: s.to_string(), number: parse_text(s) }
}

fn pointers(all: &str, boot: &str, with_optional: bool) -> JsonPointers {
    let opt = |p: &str| if with_optional { Some(p.to_string()) } else { None };
    JsonPointers {
        json_pointer_all_time: all.to_string(),
        json_pointer_boot_best: boot.to_string(),
        json_pointer_uptime_secs: opt("/uptime"),
        json_pointer_boot_id: opt("/boot_id"),
        json_pointer_hashrate_ths: opt("/hashrate"),
        json_pointer_efficiency_j_per_th: opt("/efficiency"),
        json_pointer_power_w: None,
        hashrate_scale: None,
    }
}

fn empty() -> Lookups {
    Lookups {
        all_time: None,
        boot_best: None,
        uptime_secs: None,
        boot_id: None,
        hashrate_ths: None,
        efficiency_j_per_th: None,
        power_w: None,
    }
}

#[test]
fn test_extract_metrics_numbers() {
    let l = Lookups {
        all_time: Some(num_f(12.5)),
        boot_best: Some(num_f(8.75)),
        uptime_secs: Some(num_u(1234)),
        boot_id: Some(text("XYZ")),
        hashrate_ths: Some(num_f(1.5)),
        efficiency_j_per_th: Some(num_f(16.1)),
        power_w: None,
    };
    let (m, power) = extract_metrics(&pointers("/all_time", "/boot_best", true), &l).unwrap();
    assert!((f64::from_bits(m.displayed_all_time.0) - 12.5).abs() < 1e-9);
    assert!((f64::from_bits(m.displayed_boot_best.0) - 8.75).abs() < 1e-9);
    assert_eq!(m.uptime_secs, Some(1234));
    assert_eq!(m.boot_id.as_deref(), Some("XYZ"));
    assert_eq!(m.hashrate_ths, Some(b(1.5)));
    assert_eq!(m.efficiency_j_per_th, Some(b(16.1)));
    assert_eq!(power, None);
}

#[test]
fn test_extract_metrics_string_units() {
    let l = Lookups {
        all_time: Some(text("10.0")),
        boot_best: Some(text("8.0")),
        uptime_secs: Some(text("200")),
        boot_id: Some(num_u(42)),
        hashrate_ths: Some(text("1.2T")),
        efficiency_j_per_th: Some(text("16.09 J/TH")),
        power_w: None,
    };
    let (m, _) = extract_metrics(&pointers("/all_time", "/boot_best", true), &l).unwrap();
    assert!((f64::from_bits(m.displayed_all_time.0) - 10.0).abs() < 1e-9);
    assert!((f64::from_bits(m.displayed_boot_best.0) - 8.0).abs() < 1e-9);
    assert_eq!(m.uptime_secs, Some(200));
    assert_eq!(m.boot_id.as_deref(), Some("42"));
    assert!((f64::from_bits(m.hashrate_ths.unwrap().0) - 1.2e12).abs() < 1.0);
    assert!((f64::from_bits(m.efficiency_j_per_th.unwrap().0) - 16.09).abs() < 1e-6);
}

#[test]
fn test_extract_metrics_missing_pointer_errors() {
    let mut l = empty();
    l.boot_best = Some(num_u(5));
    let err = extract_metrics(&pointers("/missing", "/boot_best", false), &l).unwrap_err();
    assert_eq!(err, ExtractionError::PointerNotFound(Field::AllTime));
}

#[test]
fn test_extract_metrics_non_finite_rejected() {
    let mut l = empty();
    l.all_time = Some(text("NaN"));
    l.boot_best = Some(num_u(1));
    let err = extract_metrics(&pointers("/all_time", "/boot_best", false), &l).unwrap_err();
    assert_eq!(err, ExtractionError::NonFinite(Field::AllTime));
}

#[test]
fn missing_boot_best_and_infinite_boot_best() {
    let mut l = empty();
    l.all_time = Some(num_f(1.0));
    let err = extract_metrics(&pointers("/a", "/b", false), &l).unwrap_err();
    assert_eq!(err, ExtractionError::PointerNotFound(Field::BootBest));
    l.boot_best = Some(text("inf"));
    let err = extract_metrics(&pointers("/a", "/b", false), &l).unwrap_err();
    assert_eq!(err, ExtractionError::NonFinite(Field::BootBest));
}

#[test]
fn configured_optional_pointer_must_resolve() {
    let mut l = empty();
    l.all_time = Some(num_f(1.0));
    l.boot_best = Some(num_f(1.0));
    let err = extract_metrics(&pointers("/a", "/b", true), &l).unwrap_err();
    assert_eq!(err, ExtractionError::PointerNotFound(Field::UptimeSecs));
}

#[test]
fn mistyped_fields_are_refused() {
    let mut l = empty();
    l.all_time = Some(JsonScalar::Other);
    l.boot_best = Some(num_f(1.0));
    let p = pointers("/a", "/b", true);
    assert_eq!(extract_metrics(&p, &l).unwrap_err(), ExtractionError::NonNumeric(Field::AllTime));
    l.all_time = Some(num_f(1.0));
    l.uptime_secs = Some(num_f(1.5));
    assert_eq!(extract_metrics(&p, &l).unwrap_err(), ExtractionError::OutOfRange(Field::UptimeSecs));
    l.uptime_secs = Some(text("12s"));
    assert_eq!(extract_metrics(&p, &l).unwrap_err(), ExtractionError::InvalidInteger(Field::UptimeSecs));
    l.uptime_secs = Some(JsonScalar::Other);
    assert_eq!(extract_metrics(&p, &l).unwrap_err(), ExtractionError::NonInteger(Field::UptimeSecs));
    l.uptime_secs = Some(text("+18446744073709551615"));
    l.boot_id = Some(JsonScalar::Other);
    assert_eq!(extract_metrics(&p, &l).unwrap_err(), ExtractionError::NotText(Field::BootId));
    l.boot_id = Some(text("x"));
    l.hashrate_ths = Some(text("1.2X"));
    assert_eq!(
        extract_metrics(&p, &l).unwrap_err(),
        ExtractionError::Unparsable(Field::HashrateThs, ParseError::UnsupportedUnit)
    );
    l.hashrate_ths = Some(num_f(1.0));
    l.efficiency_j_per_th = Some(text("   "));
    assert_eq!(
        extract_metrics(&p, &l).unwrap_err(),
        ExtractionError::Unparsable(Field::EfficiencyJPerTh, ParseError::Empty)
    );
    l.efficiency_j_per_th = Some(num_f(15.0));
    let (m, _) = extract_metrics(&p, &l).unwrap();
    assert_eq!(m.uptime_secs, Some(u64::MAX));
}

#[test]
fn power_is_read_only_without_efficiency_pointer() {
    let mut l = empty();
    l.all_time = Some(num_f(1.0));
    l.boot_best = Some(num_f(1.0));
    l.power_w = Some(num_f(20.0));
    let mut p = pointers("/a", "/b", false);
    p.json_pointer_power_w = Some("/power".to_string());
    let (_, power) = extract_metrics(&p, &l).unwrap();
    assert_eq!(power, Some(b(20.0)));
    p.json_pointer_efficiency_j_per_th = Some("/eff".to_string());
    l.efficiency_j_per_th = Some(num_f(14.0));
    l.power_w = None;
    let (m, power) = extract_metrics(&p, &l).unwrap();
    assert_eq!(power, None);
    assert_eq!(m.efficiency_j_per_th, Some(b(14.0)));
}

#[test]
fn efficiency_derived_only_from_usable_inputs() {
    assert_eq!(efficiency_source(Some(b(3.0)), Some(b(20.0)), Some(b(2.0))), EfficiencySource::Reported(b(3.0)));
    assert_eq!(
        efficiency_source(None, Some(b(20.0)), Some(b(2.0))),
        EfficiencySource::FromPower { power_w: b(20.0), hashrate_ths: b(2.0) }
    );
    assert_eq!(efficiency_source(None, Some(b(20.0)), Some(b(0.0))), EfficiencySource::Absent);
    assert_eq!(efficiency_source(None, Some(b(20.0)), Some(b(-1.0))), EfficiencySource::Absent);
    assert_eq!(efficiency_source(None, Some(b(f64::NAN)), Some(b(2.0))), EfficiencySource::Absent);
    assert_eq!(efficiency_source(None, None, Some(b(2.0))), EfficiencySource::Absent);
}

#[test]
fn extractor_and_state_flow_over_static_json() {
    let l = Lookups {
        all_time: Some(num_f(12.0)),
        boot_best: Some(num_f(9.0)),
        uptime_secs: Some(num_u(300)),
        boot_id: Some(text("B1")),
        hashrate_ths: Some(num_f(1.6)),
        efficiency_j_per_th: Some(num_f(15.8)),
        power_w: None,
    };
    let (m, _) = extract_metrics(&pointers("/all_time", "/boot_best", true), &l).expect("extract metrics");
    assert_eq!(m.uptime_secs, Some(300));
    assert_eq!(m.boot_id.as_deref(), Some("B1"));

    let mut state = MonitorState::new();
    let out = detect_changes(
        &mut state,
        Displayed { all_time: m.displayed_all_time, boot_best: m.displayed_boot_best },
        Metrics {
            uptime_secs: m.uptime_secs,
            boot_id: m.boot_id.clone(),
            hashrate_ths: m.hashrate_ths,
            efficiency_j_per_th: m.efficiency_j_per_th,
        },
        Margins { boot_best_dropped: false, hashrate_gain_reached: false, efficiency_gain_reached: false },
    );
    assert!(out.new_device_all_time_best.is_some());
    assert!(out.new_device_boot_best.is_some());
}
