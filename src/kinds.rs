use vstd::prelude::*;

use crate::value::{carries_format, fits_format, zero_of, zero_value, NumericFormat, VarValue};

verus! {

/// Why an update was refused.
#[derive(Clone, Copy, Debug, PartialEq, Eq, Structural)]
pub enum UpdateError {
    /// The carrier's member is not the one the variable's kind accepts.
    TypeMismatch,
    /// A sensor whose raw range is zero cannot be scaled.
    DivisionByZero,
}

/// What an accepted update changed, for diagnostics.
#[derive(Clone, Copy, Debug, PartialEq, Eq, Structural)]
pub enum UpdateReport {
    Toggle { old: bool, new: bool, changed: bool },
    Numeric { old_value: VarValue, new_value: VarValue },
    Sensor { old_raw: u128, raw: u128 },
}

/// The outcome of an update of a toggle holding `current`: its new state and report.
pub open spec fn toggle_step(current: bool, new: VarValue) -> Result<(bool, UpdateReport), UpdateError> {
    match new {
        VarValue::Boolean(b) => Ok((b, UpdateReport::Toggle { old: current, new: b, changed: current != b })),
        _ => Err(UpdateError::TypeMismatch),
    }
}

/// The outcome of an update of a numeric variable holding `current` in format `f`.
pub open spec fn numeric_step(current: VarValue, f: NumericFormat, new: VarValue) -> Result<
    (VarValue, UpdateReport),
    UpdateError,
> {
    if carries_format(new, f) {
        Ok((new, UpdateReport::Numeric { old_value: current, new_value: new }))
    } else {
        Err(UpdateError::TypeMismatch)
    }
}

/// The outcome of an update of a sensor whose last raw reading is `last_raw`.
pub open spec fn sensor_step(last_raw: u128, range: u64, new: VarValue) -> Result<
    (u128, UpdateReport),
    UpdateError,
> {
    match new {
        VarValue::UnsignedInt(raw) => if range == 0 {
            Err(UpdateError::DivisionByZero)
        } else {
            Ok((raw, UpdateReport::Sensor { old_raw: last_raw, raw }))
        },
        _ => Err(UpdateError::TypeMismatch),
    }
}

/// Setting a toggle to one value twice reports no change the second time.
pub proof fn lemma_toggle_repeat(
    t0: VarToogle,
    t1: VarToogle,
    t2: VarToogle,
    b: bool,
    r1: Result<UpdateReport, UpdateError>,
    r2: Result<UpdateReport, UpdateError>,
)
    requires
        t0.spec_update(t1, VarValue::Boolean(b), r1),
        t1.spec_update(t2, VarValue::Boolean(b), r2),
    ensures
        r2 == Ok::<UpdateReport, UpdateError>(
            UpdateReport::Toggle { old: b, new: b, changed: false },
        ),
        t2.spec_value() == b,
{
}

/// Setting a toggle to the opposite of its value always reports a change.
pub proof fn lemma_toggle_alternate(
    t0: VarToogle,
    t1: VarToogle,
    r: Result<UpdateReport, UpdateError>,
)
    requires
        t0.spec_update(t1, VarValue::Boolean(!t0.spec_value()), r),
    ensures
        r matches Ok(UpdateReport::Toggle { changed, .. }) && changed,
        t1.spec_value() != t0.spec_value(),
{
}

/// A carrier whose member the format does not accept is refused with
/// `TypeMismatch`, and the stored value stays as it was.
pub proof fn lemma_numeric_mismatch(
    n0: VarNumeric,
    n1: VarNumeric,
    v: VarValue,
    r: Result<UpdateReport, UpdateError>,
)
    requires
        !carries_format(v, n0.spec_format()),
        n0.spec_update(n1, v, r),
    ensures
        r == Err::<UpdateReport, UpdateError>(UpdateError::TypeMismatch),
        n1 == n0,
        n1.spec_value() == n0.spec_value(),
{
}

/// A sensor with no raw steps refuses every raw reading with
/// `DivisionByZero` and stays as it was, so its physical value too.
pub proof fn lemma_sensor_zero_range(
    s0: VarSensor4_20,
    s1: VarSensor4_20,
    raw: u128,
    r: Result<UpdateReport, UpdateError>,
)
    requires
        s0.spec_range() == 0,
        s0.spec_update(s1, VarValue::UnsignedInt(raw), r),
    ensures
        r == Err::<UpdateReport, UpdateError>(UpdateError::DivisionByZero),
        s1 == s0,
{
}

/// The kind-specific state of a variable.
#[derive(Clone, Copy, Debug, PartialEq, Eq, Structural)]
pub enum VarSpecific {
    Toogle(VarToogle),
    Numeric(VarNumeric),
    Sensor4_20(VarSensor4_20),
}

/// An on/off variable.
#[derive(Clone, Copy, Debug, PartialEq, Eq, Structural)]
pub struct VarToogle {
    value: bool,
}

/// A numeric variable; its value always carries the member its format asks for.
#[derive(Clone, Copy, Debug, PartialEq, Eq, Structural)]
pub struct VarNumeric {
    value: VarValue,
    format: NumericFormat,
    min: VarValue,
    max: VarValue,
}

/// A 4-20 mA analog sensor channel.
///
/// The calibration values are IEEE-754 binary64 bit patterns. The physical
/// value is the image of the last raw reading under the linear map
/// `(val20ma - val4ma) / range * raw + val4ma`; it is derived from the stored
/// reading and never stored on its own.
#[derive(Clone, Copy, Debug, PartialEq, Eq, Structural)]
pub struct VarSensor4_20 {
    val4ma: u64,
    val20ma: u64,
    range: u64,
    sensor_value: u128,
}

impl VarToogle {
    pub closed spec fn spec_value(&self) -> bool {
        self.value
    }

    /// What updating `self` with `new` leads to: `after` and the result `r`.
    pub open spec fn spec_update(
        &self,
        after: VarToogle,
        new: VarValue,
        r: Result<UpdateReport, UpdateError>,
    ) -> bool {
        match toggle_step(self.spec_value(), new) {
            Ok((s, rep)) => r == Ok::<UpdateReport, UpdateError>(rep) && after.spec_value() == s,
            Err(e) => r == Err::<UpdateReport, UpdateError>(e) && after == *self,
        }
    }

    /// A toggle that is off.
    pub fn new() -> (r: VarSpecific)
        ensures
            r matches VarSpecific::Toogle(t) && !t.spec_value(),
    {
        VarSpecific::Toogle(VarToogle { value: false })
    }

    pub fn get(&self) -> (r: bool)
        ensures
            r == self.spec_value(),
    {
        self.value
    }

    /// Sets the toggle from a boolean carrier and reports whether it changed.
    pub fn set_value(&mut self, varvalue: VarValue) -> (r: Result<UpdateReport, UpdateError>)
        ensures
            old(self).spec_update(*final(self), varvalue, r),
    {
        match varvalue {
            VarValue::Boolean(value) => {
                let current_value = self.value;
                let changed = value != current_value;
                self.value = value;
                Ok(UpdateReport::Toggle { old: current_value, new: value, changed })
            },
            _ => Err(UpdateError::TypeMismatch),
        }
    }
}

impl VarNumeric {
    pub closed spec fn spec_value(&self) -> VarValue {
        self.value
    }

    pub closed spec fn spec_format(&self) -> NumericFormat {
        self.format
    }

    pub closed spec fn spec_min(&self) -> VarValue {
        self.min
    }

    pub closed spec fn spec_max(&self) -> VarValue {
        self.max
    }

    /// The stored value carries the member the format asks for.
    #[verifier::type_invariant]
    spec fn carries_own_format(&self) -> bool {
        carries_format(self.value, self.format)
    }

    /// What updating `self` with `new` leads to: `after` and the result `r`.
    pub open spec fn spec_update(
        &self,
        after: VarNumeric,
        new: VarValue,
        r: Result<UpdateReport, UpdateError>,
    ) -> bool {
        match numeric_step(self.spec_value(), self.spec_format(), new) {
            Ok((s, rep)) => {
                &&& r == Ok::<UpdateReport, UpdateError>(rep)
                &&& after.spec_value() == s
                &&& after.spec_format() == self.spec_format()
                &&& after.spec_min() == self.spec_min()
                &&& after.spec_max() == self.spec_max()
            },
            Err(e) => r == Err::<UpdateReport, UpdateError>(e) && after == *self,
        }
    }

    /// A numeric variable of the given format, holding zero; its bounds are
    /// zero too and are carried, not enforced.
    pub fn new(format: NumericFormat) -> (r: VarSpecific)
        ensures
            r matches VarSpecific::Numeric(n) && n.spec_format() == format
                && n.spec_value() == zero_of(format) && n.spec_min() == zero_of(format)
                && n.spec_max() == zero_of(format),
    {
        let zero = zero_value(format);
        VarSpecific::Numeric(VarNumeric { value: zero, format, min: zero, max: zero })
    }

    pub fn value(&self) -> (r: VarValue)
        ensures
            r == self.spec_value(),
    {
        self.value
    }

    pub fn format(&self) -> (r: NumericFormat)
        ensures
            r == self.spec_format(),
    {
        self.format
    }

    pub fn min(&self) -> (r: VarValue)
        ensures
            r == self.spec_min(),
    {
        self.min
    }

    pub fn max(&self) -> (r: VarValue)
        ensures
            r == self.spec_max(),
    {
        self.max
    }

    /// Replaces the value by `value` when it carries the member the format
    /// asks for; no range check is made against the bounds.
    pub fn set_value(&mut self, value: VarValue) -> (r: Result<UpdateReport, UpdateError>)
        ensures
            old(self).spec_update(*final(self), value, r),
    {
        if fits_format(value, self.format) {
            let current_value = self.value;
            *self = VarNumeric { value, format: self.format, min: self.min, max: self.max };
            Ok(UpdateReport::Numeric { old_value: current_value, new_value: value })
        } else {
            Err(UpdateError::TypeMismatch)
        }
    }
}

impl VarSensor4_20 {
    pub closed spec fn spec_val4ma(&self) -> u64 {
        self.val4ma
    }

    pub closed spec fn spec_val20ma(&self) -> u64 {
        self.val20ma
    }

    pub closed spec fn spec_range(&self) -> u64 {
        self.range
    }

    pub closed spec fn spec_raw(&self) -> u128 {
        self.sensor_value
    }

    /// What updating `self` with `new` leads to: `after` and the result `r`.
    pub open spec fn spec_update(
        &self,
        after: VarSensor4_20,
        new: VarValue,
        r: Result<UpdateReport, UpdateError>,
    ) -> bool {
        match sensor_step(self.spec_raw(), self.spec_range(), new) {
            Ok((s, rep)) => {
                &&& r == Ok::<UpdateReport, UpdateError>(rep)
                &&& after.spec_raw() == s
                &&& after.spec_val4ma() == self.spec_val4ma()
                &&& after.spec_val20ma() == self.spec_val20ma()
                &&& after.spec_range() == self.spec_range()
            },
            Err(e) => r == Err::<UpdateReport, UpdateError>(e) && after == *self,
        }
    }

    /// A sensor with the given calibration (bit patterns of the physical
    /// values at 4 mA and 20 mA) and number of raw steps, reading zero.
    pub fn new(val4ma: u64, val20ma: u64, range: u64) -> (r: VarSpecific)
        ensures
            r matches VarSpecific::Sensor4_20(s) && s.spec_val4ma() == val4ma
                && s.spec_val20ma() == val20ma && s.spec_range() == range && s.spec_raw() == 0,
    {
        VarSpecific::Sensor4_20(VarSensor4_20 { val4ma, val20ma, range, sensor_value: 0 })
    }

    pub fn val_at_4ma(&self) -> (r: u64)
        ensures
            r == self.spec_val4ma(),
    {
        self.val4ma
    }

    pub fn val_at_20ma(&self) -> (r: u64)
        ensures
            r == self.spec_val20ma(),
    {
        self.val20ma
    }

    pub fn raw_range(&self) -> (r: u64)
        ensures
            r == self.spec_range(),
    {
        self.range
    }

    pub fn raw_value(&self) -> (r: u128)
        ensures
            r == self.spec_raw(),
    {
        self.sensor_value
    }

    /// Stores a raw reading given as an unsigned carrier; a sensor with no
    /// raw steps refuses it and stays as it was.
    pub fn set_value(&mut self, varvalue: VarValue) -> (r: Result<UpdateReport, UpdateError>)
        ensures
            old(self).spec_update(*final(self), varvalue, r),
    {
        match varvalue {
            VarValue::UnsignedInt(value) => {
                if self.range == 0 {
                    Err(UpdateError::DivisionByZero)
                } else {
                    let old_raw = self.sensor_value;
                    self.sensor_value = value;
                    Ok(UpdateReport::Sensor { old_raw, raw: value })
                }
            },
            _ => Err(UpdateError::TypeMismatch),
        }
    }
}

impl VarSpecific {
    /// What updating `self` with `new` leads to: `after` and the result `r`.
    pub open spec fn spec_update(
        &self,
        after: VarSpecific,
        new: VarValue,
        r: Result<UpdateReport, UpdateError>,
    ) -> bool {
        match (*self, after) {
            (VarSpecific::Toogle(a), VarSpecific::Toogle(b)) => a.spec_update(b, new, r),
            (VarSpecific::Numeric(a), VarSpecific::Numeric(b)) => a.spec_update(b, new, r),
            (VarSpecific::Sensor4_20(a), VarSpecific::Sensor4_20(b)) => a.spec_update(b, new, r),
            _ => false,
        }
    }

    /// Hands `varvalue` to the update of the active kind.
    pub fn set_value(&mut self, varvalue: VarValue) -> (r: Result<UpdateReport, UpdateError>)
        ensures
            old(self).spec_update(*final(self), varvalue, r),
    {
        match self {
            VarSpecific::Toogle(toogle) => toogle.set_value(varvalue),
            VarSpecific::Numeric(numeric) => numeric.set_value(varvalue),
            VarSpecific::Sensor4_20(sensor) => sensor.set_value(varvalue),
        }
    }
}

} // verus!
