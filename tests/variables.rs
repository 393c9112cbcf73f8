use rustdb::config::{
    analyze_numeric, load_record, variable_from_record, ConfigError, ConfigRecord,
    DEFAULT_RAW_RANGE, DEFAULT_VAL_AT_20MA, DEFAULT_VAL_AT_4MA,
};
use rustdb::kinds::{UpdateError, UpdateReport, VarNumeric, VarSensor4_20, VarSpecific, VarToogle};
use rustdb::registry::{Registry, RegistryError};
use rustdb::value::{fits_format, zero_value, NumericFormat, VarValue};
use rustdb::variable::Variable;

const INT64: NumericFormat = NumericFormat { integer: true, signed: true, size: 64 };
const FLOAT32: NumericFormat = NumericFormat { integer: false, signed: true, size: 32 };
const UINT16: NumericFormat = NumericFormat { integer: true, signed: false, size: 16 };

fn variable(reference: &str, specific: VarSpecific) -> Variable {
    Variable::new(
        reference.to_string(),
        "a variable".to_string(),
        "GROUP01".to_string(),
        "READ".to_string(),
        specific,
    )
}

fn toggle() -> VarToogle {
    match VarToogle::new() {
        VarSpecific::Toogle(t) => t,
        _ => panic!("not a toggle"),
    }
}

fn numeric(format: NumericFormat) -> VarNumeric {
    match VarNumeric::new(format) {
        VarSpecific::Numeric(n) => n,
        _ => panic!("not numeric"),
    }
}

fn sensor(val4ma: f64, val20ma: f64, range: u64) -> VarSensor4_20 {
    match VarSensor4_20::new(val4ma.to_bits(), val20ma.to_bits(), range) {
        VarSpecific::Sensor4_20(s) => s,
        _ => panic!("not a sensor"),
    }
}

fn physical(s: &VarSensor4_20) -> f64 {
    let v4 = f64::from_bits(s.val_at_4ma());
    let v20 = f64::from_bits(s.val_at_20ma());
    (v20 - v4) / (s.raw_range() as f64) * (s.raw_value() as f64) + v4
}

fn record(reference: &str, kind: &str, format: &str) -> ConfigRecord {
    ConfigRecord {
        reference: reference.to_string(),
        description: "from configuration".to_string(),
        kind: kind.to_string(),
        format: format.to_string(),
        min: None,
        max: None,
        range: None,
        group: None,
        operation: None,
    }
}

#[test]
fn toggle_starts_off() {
    assert!(!toggle().get());
}

#[test]
fn toggle_same_value_twice_reports_no_change() {
    let mut t = toggle();
    let first = t.set_value(VarValue::Boolean(true));
    assert_eq!(first, Ok(UpdateReport::Toggle { old: false, new: true, changed: true }));
    let second = t.set_value(VarValue::Boolean(true));
    assert_eq!(second, Ok(UpdateReport::Toggle { old: true, new: true, changed: false }));
    assert!(t.get());
}

#[test]
fn toggle_alternating_values_always_change() {
    let mut t = toggle();
    let mut expected = true;
    for _ in 0..6 {
        let r = t.set_value(VarValue::Boolean(expected));
        assert_eq!(r, Ok(UpdateReport::Toggle { old: !expected, new: expected, changed: true }));
        expected = !expected;
    }
}

#[test]
fn toggle_refuses_non_boolean() {
    let mut t = toggle();
    assert_eq!(t.set_value(VarValue::UnsignedInt(1)), Err(UpdateError::TypeMismatch));
    assert_eq!(t.set_value(VarValue::Float(1.0f64.to_bits())), Err(UpdateError::TypeMismatch));
    assert!(!t.get());
}

#[test]
fn numeric_starts_at_zero_of_its_format() {
    assert_eq!(numeric(INT64).value(), VarValue::SignedInt(0));
    assert_eq!(numeric(UINT16).value(), VarValue::UnsignedInt(0));
    assert_eq!(numeric(FLOAT32).value(), VarValue::Float(0));
    assert_eq!(numeric(INT64).format(), INT64);
    assert_eq!(numeric(FLOAT32).min(), VarValue::Float(0));
    assert_eq!(numeric(UINT16).max(), VarValue::UnsignedInt(0));
    assert_eq!(zero_value(INT64), VarValue::SignedInt(0));
}

#[test]
fn numeric_signed_value_is_kept_exactly() {
    for v in [0i128, -1, 42, i64::MIN as i128, i64::MAX as i128] {
        let mut var = variable("N", VarNumeric::new(INT64));
        let r = var.set_value(VarValue::SignedInt(v));
        assert_eq!(
            r,
            Ok(UpdateReport::Numeric {
                old_value: VarValue::SignedInt(0),
                new_value: VarValue::SignedInt(v),
            })
        );
        match var.describe().specific {
            VarSpecific::Numeric(n) => assert_eq!(n.value(), VarValue::SignedInt(v)),
            _ => panic!("not numeric"),
        }
    }
}

#[test]
fn numeric_unsigned_and_float_members() {
    let mut u = numeric(UINT16);
    assert_eq!(
        u.set_value(VarValue::UnsignedInt(127)),
        Ok(UpdateReport::Numeric {
            old_value: VarValue::UnsignedInt(0),
            new_value: VarValue::UnsignedInt(127),
        })
    );
    let mut f = numeric(FLOAT32);
    let bits = 25.4f64.to_bits();
    assert!(f.set_value(VarValue::Float(bits)).is_ok());
    assert_eq!(f.value(), VarValue::Float(bits));
}

#[test]
fn numeric_mismatch_keeps_value() {
    let mut n = numeric(INT64);
    assert!(n.set_value(VarValue::SignedInt(7)).is_ok());
    for wrong in [
        VarValue::Float(1.5f64.to_bits()),
        VarValue::UnsignedInt(7),
        VarValue::Boolean(true),
    ] {
        assert_eq!(n.set_value(wrong), Err(UpdateError::TypeMismatch));
        assert_eq!(n.value(), VarValue::SignedInt(7));
    }
    let mut f = numeric(FLOAT32);
    assert_eq!(f.set_value(VarValue::SignedInt(3)), Err(UpdateError::TypeMismatch));
    assert_eq!(f.value(), VarValue::Float(0));
}

#[test]
fn sensor_linearity() {
    let mut s = sensor(10.0, 100.0, 256);
    assert_eq!(s.set_value(VarValue::UnsignedInt(0)), Ok(UpdateReport::Sensor { old_raw: 0, raw: 0 }));
    assert!((physical(&s) - 10.0).abs() < 1e-9);
    assert_eq!(
        s.set_value(VarValue::UnsignedInt(256)),
        Ok(UpdateReport::Sensor { old_raw: 0, raw: 256 })
    );
    assert!((physical(&s) - 100.0).abs() < 1e-9);
    assert_eq!(
        s.set_value(VarValue::UnsignedInt(128)),
        Ok(UpdateReport::Sensor { old_raw: 256, raw: 128 })
    );
    assert_eq!(s.raw_value(), 128);
    assert!((physical(&s) - 55.0).abs() < 1e-9);
}

#[test]
fn sensor_zero_range_is_refused() {
    let mut s = sensor(10.0, 100.0, 0);
    let before = s;
    assert_eq!(s.set_value(VarValue::UnsignedInt(5)), Err(UpdateError::DivisionByZero));
    assert_eq!(s, before);
    assert_eq!(s.raw_value(), 0);
}

#[test]
fn sensor_refuses_non_unsigned() {
    let mut s = sensor(10.0, 100.0, 256);
    assert_eq!(s.set_value(VarValue::SignedInt(5)), Err(UpdateError::TypeMismatch));
    assert_eq!(s.set_value(VarValue::Boolean(true)), Err(UpdateError::TypeMismatch));
    assert_eq!(s.raw_value(), 0);
}

#[test]
fn variable_starts_uninitialized_and_keeps_metadata() {
    let v = variable("GROUP0101_ACTIVE", VarToogle::new());
    assert!(!v.is_initialized());
    assert_eq!(v.get_group(), "GROUP01");
    assert_eq!(v.get_reference(), "GROUP0101_ACTIVE");
    let snap = v.describe();
    assert_eq!(snap.reference, "GROUP0101_ACTIVE");
    assert_eq!(snap.description, "a variable");
    assert_eq!(snap.group, "GROUP01");
    assert_eq!(snap.operation, "READ");
    assert!(!snap.initialized);
    assert!(snap.used_by.is_empty());
    assert_eq!(snap.specific, VarToogle::new());
}

#[test]
fn variable_initialized_after_unchanged_update() {
    let mut v = variable("T", VarToogle::new());
    let r = v.set_value(VarValue::Boolean(false));
    assert_eq!(r, Ok(UpdateReport::Toggle { old: false, new: false, changed: false }));
    assert!(v.is_initialized());
    assert!(v.set_value(VarValue::UnsignedInt(3)).is_err());
    assert!(v.is_initialized());
}

#[test]
fn variable_failed_update_leaves_it_uninitialized() {
    let mut v = variable("S", VarSensor4_20::new(1, 2, 0));
    assert_eq!(v.set_value(VarValue::UnsignedInt(1)), Err(UpdateError::DivisionByZero));
    assert!(!v.is_initialized());
    let mut w = variable("W", VarToogle::new());
    w.initialize();
    assert!(w.is_initialized());
    assert_eq!(w.specific(), VarToogle::new());
}

#[test]
fn registry_unknown_reference() {
    let mut reg = Registry::new();
    reg.insert("KNOWN".to_string(), variable("KNOWN", VarToogle::new()));
    let r = reg.update(&"UNKNOWN".to_string(), VarValue::Boolean(true));
    assert_eq!(r, Err(RegistryError::UnknownReference));
    assert!(!reg.contains(&"UNKNOWN".to_string()));
    assert!(reg.get(&"UNKNOWN".to_string()).is_none());
}

#[test]
fn registry_insert_twice_keeps_second() {
    let mut reg = Registry::new();
    let key = "DUP".to_string();
    reg.insert(key.clone(), variable("DUP", VarToogle::new()));
    reg.insert(key.clone(), variable("DUP", VarNumeric::new(INT64)));
    let held = reg.get(&key).unwrap();
    assert_eq!(held.specific(), VarNumeric::new(INT64));
    assert!(reg.contains(&key));
}

#[test]
fn registry_update_delegates() {
    let mut reg = Registry::new();
    let key = "GATE01_WATERLEVEL".to_string();
    reg.insert(key.clone(), variable("GATE01_WATERLEVEL", VarSensor4_20::new(1, 2, 256)));
    assert_eq!(
        reg.update(&key, VarValue::UnsignedInt(127)),
        Ok(UpdateReport::Sensor { old_raw: 0, raw: 127 })
    );
    assert_eq!(
        reg.update(&key, VarValue::Boolean(true)),
        Err(RegistryError::Update(UpdateError::TypeMismatch))
    );
    let held = reg.get(&key).unwrap();
    assert!(held.is_initialized());
    match held.specific() {
        VarSpecific::Sensor4_20(s) => assert_eq!(s.raw_value(), 127),
        _ => panic!("not a sensor"),
    }
}

#[test]
fn analyze_numeric_known_and_unknown_tags() {
    assert_eq!(analyze_numeric(&"FLOAT32".to_string()), Ok(FLOAT32));
    assert_eq!(analyze_numeric(&"INT64".to_string()), Ok(INT64));
    assert_eq!(analyze_numeric(&"INT8".to_string()), Err(ConfigError::UnknownFormat));
    assert_eq!(analyze_numeric(&"".to_string()), Err(ConfigError::UnknownFormat));
}

#[test]
fn record_builds_each_kind() {
    let t = variable_from_record(record("A", "TOOGLE", "")).unwrap();
    assert_eq!(t.specific(), VarToogle::new());
    assert_eq!(t.get_group(), "");
    let n = variable_from_record(record("B", "NUMERIC", "INT64")).unwrap();
    assert_eq!(n.specific(), VarNumeric::new(INT64));
    let s = variable_from_record(record("C", "SENSOR4_20", "")).unwrap();
    assert_eq!(
        s.specific(),
        VarSensor4_20::new(DEFAULT_VAL_AT_4MA, DEFAULT_VAL_AT_20MA, DEFAULT_RAW_RANGE)
    );
    assert_eq!(f64::from_bits(DEFAULT_VAL_AT_4MA), 10.0);
    assert_eq!(f64::from_bits(DEFAULT_VAL_AT_20MA), 100.0);
    assert!(!s.is_initialized());
}

#[test]
fn record_fields_are_threaded_through() {
    let mut r = record("C", "SENSOR4_20", "");
    r.min = Some(0.0f64.to_bits());
    r.max = Some(50.0f64.to_bits());
    r.range = Some(1000);
    r.group = Some("GATES".to_string());
    r.operation = Some("WRITE".to_string());
    let v = variable_from_record(r).unwrap();
    assert_eq!(v.specific(), VarSensor4_20::new(0.0f64.to_bits(), 50.0f64.to_bits(), 1000));
    let snap = v.describe();
    assert_eq!(snap.group, "GATES");
    assert_eq!(snap.operation, "WRITE");
    assert_eq!(snap.description, "from configuration");
}

#[test]
fn record_errors() {
    assert_eq!(
        variable_from_record(record("X", "NUMERIC", "DOUBLE")).err(),
        Some(ConfigError::UnknownFormat)
    );
    assert_eq!(
        variable_from_record(record("X", "SWITCH", "")).err(),
        Some(ConfigError::UnknownKind)
    );
    let mut r = record("X", "SENSOR4_20", "");
    r.range = Some(-1);
    assert_eq!(variable_from_record(r).err(), Some(ConfigError::InvalidRange));
}

#[test]
fn load_record_inserts_or_leaves_registry() {
    let mut reg = Registry::new();
    assert_eq!(load_record(&mut reg, record("GROUP0101_PROD", "NUMERIC", "FLOAT32")), Ok(()));
    assert!(reg.contains(&"GROUP0101_PROD".to_string()));
    assert_eq!(
        reg.update(&"GROUP0101_PROD".to_string(), VarValue::Float(25.4f64.to_bits())),
        Ok(UpdateReport::Numeric {
            old_value: VarValue::Float(0),
            new_value: VarValue::Float(25.4f64.to_bits()),
        })
    );
    assert_eq!(
        load_record(&mut reg, record("BAD", "NUMERIC", "INT8")),
        Err(ConfigError::UnknownFormat)
    );
    assert!(!reg.contains(&"BAD".to_string()));
}

#[test]
fn fits_format_selects_the_member() {
    assert!(fits_format(VarValue::SignedInt(-3), INT64));
    assert!(!fits_format(VarValue::UnsignedInt(3), INT64));
    assert!(fits_format(VarValue::UnsignedInt(3), UINT16));
    assert!(fits_format(VarValue::Float(0), FLOAT32));
    assert!(!fits_format(VarValue::Boolean(true), FLOAT32));
}
