use vstd::prelude::*;

use crate::kinds::{VarNumeric, VarSensor4_20, VarSpecific, VarToogle};
use crate::registry::Registry;
use crate::value::{zero_of, NumericFormat};
use crate::variable::Variable;

verus! {

/// Errors met while turning configuration records into variables.
#[derive(Clone, Copy, Debug, PartialEq, Eq, Structural)]
pub enum ConfigError {
    /// The format tag names no known format.
    UnknownFormat,
    /// The kind tag names no known kind of variable.
    UnknownKind,
    /// A sensor's raw range is negative.
    InvalidRange,
}

/// The format that a configuration format tag names, if any.
pub open spec fn format_of_tag(tag: Seq<char>) -> Option<NumericFormat> {
    if tag == "FLOAT32"@ {
        Some(NumericFormat { integer: false, signed: true, size: 32 })
    } else if tag == "INT64"@ {
        Some(NumericFormat { integer: true, signed: true, size: 64 })
    } else {
        None
    }
}

/// Maps a format tag of the configuration to its numeric format.
pub fn analyze_numeric(strformat: &String) -> (r: Result<NumericFormat, ConfigError>)
    ensures
        format_of_tag(strformat@) matches Some(f) ==> r == Ok::<NumericFormat, ConfigError>(f),
        format_of_tag(strformat@) is None ==> r == Err::<NumericFormat, ConfigError>(
            ConfigError::UnknownFormat,
        ),
{
    let float32 = "FLOAT32".to_owned();
    let int64 = "INT64".to_owned();
    proof {
        reveal_strlit("FLOAT32");
        reveal_strlit("INT64");
    }
    if *strformat == float32 {
        Ok(NumericFormat { integer: false, signed: true, size: 32 })
    } else if *strformat == int64 {
        Ok(NumericFormat { integer: true, signed: true, size: 64 })
    } else {
        Err(ConfigError::UnknownFormat)
    }
}

/// Bit pattern of 10.0, the physical value at 4 mA when none is configured.
pub const DEFAULT_VAL_AT_4MA: u64 = 0x4024_0000_0000_0000;

/// Bit pattern of 100.0, the physical value at 20 mA when none is configured.
pub const DEFAULT_VAL_AT_20MA: u64 = 0x4059_0000_0000_0000;

/// Raw steps of a sensor when none are configured.
pub const DEFAULT_RAW_RANGE: u64 = 256;

/// One already-parsed configuration record. `min` and `max` are bit patterns
/// of binary64 numbers; for a sensor they are its values at 4 mA and 20 mA.
pub struct ConfigRecord {
    pub reference: String,
    pub description: String,
    pub kind: String,
    pub format: String,
    pub min: Option<u64>,
    pub max: Option<u64>,
    pub range: Option<i64>,
    pub group: Option<String>,
    pub operation: Option<String>,
}

/// The text of an optional field, empty where it is absent.
pub open spec fn text_or_empty(o: Option<String>) -> Seq<char> {
    match o {
        Some(s) => s@,
        None => Seq::empty(),
    }
}

/// The bit pattern of an optional field, `default` where it is absent.
pub open spec fn bits_or(o: Option<u64>, default: u64) -> u64 {
    match o {
        Some(b) => b,
        None => default,
    }
}

/// The error a record meets, if any.
pub open spec fn record_error(record: ConfigRecord) -> Option<ConfigError> {
    if record.kind@ == "TOOGLE"@ {
        None
    } else if record.kind@ == "NUMERIC"@ {
        if format_of_tag(record.format@) is Some {
            None
        } else {
            Some(ConfigError::UnknownFormat)
        }
    } else if record.kind@ == "SENSOR4_20"@ {
        match record.range {
            Some(n) => if n < 0 {
                Some(ConfigError::InvalidRange)
            } else {
                None
            },
            None => None,
        }
    } else {
        Some(ConfigError::UnknownKind)
    }
}

/// The kind-specific state that a record without error describes.
pub open spec fn specific_fits_record(s: VarSpecific, record: ConfigRecord) -> bool {
    if record.kind@ == "TOOGLE"@ {
        s matches VarSpecific::Toogle(t) && !t.spec_value()
    } else if record.kind@ == "NUMERIC"@ {
        s matches VarSpecific::Numeric(n) && format_of_tag(record.format@) == Some(n.spec_format())
            && n.spec_value() == zero_of(n.spec_format()) && n.spec_min() == zero_of(
            n.spec_format(),
        ) && n.spec_max() == zero_of(n.spec_format())
    } else {
        s matches VarSpecific::Sensor4_20(c) && c.spec_raw() == 0 && c.spec_val4ma() == bits_or(
            record.min,
            DEFAULT_VAL_AT_4MA,
        ) && c.spec_val20ma() == bits_or(record.max, DEFAULT_VAL_AT_20MA) && c.spec_range() == (
        match record.range {
            Some(n) => n as u64,
            None => DEFAULT_RAW_RANGE,
        })
    }
}

/// The variable that a record without error describes.
pub open spec fn variable_fits_record(v: Variable, record: ConfigRecord) -> bool {
    &&& v.spec_reference() == record.reference@
    &&& v.spec_description() == record.description@
    &&& v.spec_group() == text_or_empty(record.group)
    &&& v.spec_operation() == text_or_empty(record.operation)
    &&& !v.spec_initialized()
    &&& v.spec_used_by() == Seq::<Seq<char>>::empty()
    &&& specific_fits_record(v.spec_specific(), record)
}

fn text_of(o: Option<String>) -> (r: String)
    ensures
        r@ == text_or_empty(o),
{
    match o {
        Some(s) => s,
        None => String::new(),
    }
}

/// Builds the variable that a configuration record describes.
pub fn variable_from_record(record: ConfigRecord) -> (r: Result<Variable, ConfigError>)
    ensures
        match record_error(record) {
            Some(e) => r == Err::<Variable, ConfigError>(e),
            None => r matches Ok(v) && variable_fits_record(v, record),
        },
{
    let toogle = "TOOGLE".to_owned();
    let numeric = "NUMERIC".to_owned();
    let sensor = "SENSOR4_20".to_owned();
    proof {
        reveal_strlit("TOOGLE");
        reveal_strlit("NUMERIC");
        reveal_strlit("SENSOR4_20");
    }
    let specific = if record.kind == toogle {
        VarToogle::new()
    } else if record.kind == numeric {
        match analyze_numeric(&record.format) {
            Ok(format) => VarNumeric::new(format),
            Err(e) => {
                return Err(e);
            },
        }
    } else if record.kind == sensor {
        let range: u64 = match record.range {
            Some(n) => {
                if n < 0 {
                    return Err(ConfigError::InvalidRange);
                }
                n as u64
            },
            None => DEFAULT_RAW_RANGE,
        };
        let val4ma = match record.min {
            Some(b) => b,
            None => DEFAULT_VAL_AT_4MA,
        };
        let val20ma = match record.max {
            Some(b) => b,
            None => DEFAULT_VAL_AT_20MA,
        };
        VarSensor4_20::new(val4ma, val20ma, range)
    } else {
        return Err(ConfigError::UnknownKind);
    };
    let group = text_of(record.group);
    let operation = text_of(record.operation);
    Ok(Variable::new(record.reference, record.description, group, operation, specific))
}

/// Builds the variable a record describes and registers it under its reference.
pub fn load_record(registry: &mut Registry, record: ConfigRecord) -> (r: Result<(), ConfigError>)
    ensures
        match record_error(record) {
            Some(e) => r == Err::<(), ConfigError>(e) && final(registry)@ == old(registry)@,
            None => r is Ok && exists|v: Variable|
                variable_fits_record(v, record) && final(registry)@ == old(registry)@.insert(
                    record.reference@,
                    v,
                ),
        },
{
    let reference = record.reference.clone();
    match variable_from_record(record) {
        Ok(v) => {
            registry.insert(reference, v);
            Ok(())
        },
        Err(e) => Err(e),
    }
}

} // verus!
