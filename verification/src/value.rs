//! Config value model: the tagged union a configuration slot's value is
//! presented as, and its marshaling to and from the driver's untyped
//! 64-bit value cell, whose meaning is fixed by the slot's declared type
//! tag rather than stored with the value.

use vstd::prelude::*;

verus! {

/// The false code of the driver's two-valued boolean representation.
pub const VENDOR_FALSE: i32 = 0;

/// The true code of the driver's two-valued boolean representation.
pub const VENDOR_TRUE: i32 = 1;

/// The boolean a vendor two-valued code stands for.
pub open spec fn spec_vendor_to_bool(v: i32) -> bool {
    v == VENDOR_TRUE
}

/// The vendor two-valued code a boolean is carried as.
pub open spec fn spec_bool_to_vendor(b: bool) -> i32 {
    if b {
        VENDOR_TRUE
    } else {
        VENDOR_FALSE
    }
}

/// Converts a native boolean to the vendor two-valued representation.
pub fn bool_to_vendor(b: bool) -> (r: i32)
    ensures
        r == spec_bool_to_vendor(b),
{
    if b {
        VENDOR_TRUE
    } else {
        VENDOR_FALSE
    }
}

/// Converts a vendor two-valued code back to a native boolean. The code
/// is two-valued by the driver's contract.
pub fn vendor_to_bool(v: i32) -> (r: bool)
    requires
        v == VENDOR_FALSE || v == VENDOR_TRUE,
    ensures
        r == spec_vendor_to_bool(v),
{
    v == VENDOR_TRUE
}

/// Converting a boolean to the vendor two-valued representation and back
/// yields the original boolean, for both values.
pub proof fn lemma_vendor_bool_round_trip(b: bool)
    ensures
        spec_vendor_to_bool(spec_bool_to_vendor(b)) == b,
{
}

/// Converting a vendor two-valued code to a boolean and back yields the
/// original code, for both codes: the conversion is lossless in this
/// direction too.
pub proof fn lemma_vendor_code_round_trip(v: i32)
    requires
        v == VENDOR_FALSE || v == VENDOR_TRUE,
    ensures
        spec_bool_to_vendor(spec_vendor_to_bool(v)) == v,
{
}

/// The declared type of a configuration slot's value. The tag is a
/// property of the slot, not of the value cell.
#[derive(Debug, Copy, Clone, Hash, PartialEq, Eq, Structural)]
pub enum ValueType {
    Int,
    Float,
    Bool,
}

/// Driver code for a slot typed as integer.
pub const VALUE_TYPE_INT: i32 = 0;

/// Driver code for a slot typed as floating-point.
pub const VALUE_TYPE_FLOAT: i32 = 1;

/// Driver code for a slot typed as boolean.
pub const VALUE_TYPE_BOOL: i32 = 2;

impl ValueType {
    /// The driver's code for this type tag.
    pub open spec fn code_spec(self) -> i32 {
        match self {
            ValueType::Int => VALUE_TYPE_INT,
            ValueType::Float => VALUE_TYPE_FLOAT,
            ValueType::Bool => VALUE_TYPE_BOOL,
        }
    }

    /// The driver's code for this type tag.
    pub fn code(self) -> (r: i32)
        ensures
            r == self.code_spec(),
    {
        match self {
            ValueType::Int => VALUE_TYPE_INT,
            ValueType::Float => VALUE_TYPE_FLOAT,
            ValueType::Bool => VALUE_TYPE_BOOL,
        }
    }

    /// The type tag a driver code stands for, if any.
    pub open spec fn spec_from_code(code: i32) -> Option<ValueType> {
        if code == VALUE_TYPE_INT {
            Some(ValueType::Int)
        } else if code == VALUE_TYPE_FLOAT {
            Some(ValueType::Float)
        } else if code == VALUE_TYPE_BOOL {
            Some(ValueType::Bool)
        } else {
            None
        }
    }

    /// The type tag a driver code stands for, if any.
    pub fn from_code(code: i32) -> (r: Option<ValueType>)
        ensures
            r == Self::spec_from_code(code),
    {
        if code == VALUE_TYPE_INT {
            Some(ValueType::Int)
        } else if code == VALUE_TYPE_FLOAT {
            Some(ValueType::Float)
        } else if code == VALUE_TYPE_BOOL {
            Some(ValueType::Bool)
        } else {
            None
        }
    }
}

/// The driver's untyped 64-bit value cell. It truly carries no tag: the
/// same bits are read as a signed integer, as the bit pattern of a
/// 64-bit float, or as a vendor boolean, depending on the slot.
#[derive(Debug, Copy, Clone, Hash, PartialEq, Eq, Structural)]
pub struct RawValue {
    pub bits: u64,
}

impl RawValue {
    /// The cell an integer value is carried as.
    pub open spec fn spec_from_int(i: i64) -> RawValue {
        RawValue { bits: i as u64 }
    }

    /// The cell a float (by bit pattern) is carried as.
    pub open spec fn spec_from_float_bits(f: u64) -> RawValue {
        RawValue { bits: f }
    }

    /// The cell a boolean is carried as: the vendor two-valued code.
    pub open spec fn spec_from_bool(b: bool) -> RawValue {
        RawValue { bits: spec_bool_to_vendor(b) as u64 }
    }

    pub open spec fn spec_as_int(self) -> i64 {
        self.bits as i64
    }

    pub open spec fn spec_as_float_bits(self) -> u64 {
        self.bits
    }

    /// Read as a vendor boolean: true exactly on the vendor true code.
    pub open spec fn spec_as_bool(self) -> bool {
        self.bits == VENDOR_TRUE as u64
    }

    pub fn from_int(i: i64) -> (r: RawValue)
        ensures
            r == Self::spec_from_int(i),
    {
        RawValue { bits: i as u64 }
    }

    pub fn from_float_bits(f: u64) -> (r: RawValue)
        ensures
            r == Self::spec_from_float_bits(f),
    {
        RawValue { bits: f }
    }

    pub fn from_bool(b: bool) -> (r: RawValue)
        ensures
            r == Self::spec_from_bool(b),
    {
        RawValue { bits: bool_to_vendor(b) as u64 }
    }

    pub fn as_int(self) -> (r: i64)
        ensures
            r == self.spec_as_int(),
    {
        self.bits as i64
    }

    pub fn as_float_bits(self) -> (r: u64)
        ensures
            r == self.spec_as_float_bits(),
    {
        self.bits
    }

    pub fn as_bool(self) -> (r: bool)
        ensures
            r == self.spec_as_bool(),
    {
        self.bits == 1u64
    }
}

/// Writing an integer into the untyped cell and reading it back as an
/// integer is lossless.
pub proof fn lemma_raw_int_round_trip(i: i64)
    ensures
        RawValue::spec_from_int(i).spec_as_int() == i,
{
    assert(((i as u64) as i64) == i) by (bit_vector);
}

/// Writing a boolean into the untyped cell and reading it back as a
/// boolean is lossless, for both values.
pub proof fn lemma_raw_bool_round_trip(b: bool)
    ensures
        RawValue::spec_from_bool(b).spec_as_bool() == b,
{
}

/// A configuration slot's value as a tagged union. The `Float` variant
/// carries the IEEE 754 bit pattern of the 64-bit value, since the
/// verified layer never computes on it, only marshals it.
#[derive(Debug, Copy, Clone, Hash, PartialEq, Eq, Structural)]
pub enum ConfigValue {
    Int(i64),
    Float(u64),
    Bool(bool),
}

impl ConfigValue {
    /// The type tag this value currently holds.
    pub open spec fn kind_spec(self) -> ValueType {
        match self {
            ConfigValue::Int(_) => ValueType::Int,
            ConfigValue::Float(_) => ValueType::Float,
            ConfigValue::Bool(_) => ValueType::Bool,
        }
    }

    /// The type tag this value currently holds.
    pub fn kind(self) -> (r: ValueType)
        ensures
            r == self.kind_spec(),
    {
        match self {
            ConfigValue::Int(_) => ValueType::Int,
            ConfigValue::Float(_) => ValueType::Float,
            ConfigValue::Bool(_) => ValueType::Bool,
        }
    }

    /// The untyped cell this value is sent to the driver as.
    pub open spec fn spec_to_raw(self) -> RawValue {
        match self {
            ConfigValue::Int(i) => RawValue::spec_from_int(i),
            ConfigValue::Float(f) => RawValue::spec_from_float_bits(f),
            ConfigValue::Bool(b) => RawValue::spec_from_bool(b),
        }
    }

    /// The tagged value an untyped cell decodes to under a slot's
    /// declared type tag.
    pub open spec fn spec_from_raw(raw: RawValue, ty: ValueType) -> ConfigValue {
        match ty {
            ValueType::Int => ConfigValue::Int(raw.spec_as_int()),
            ValueType::Float => ConfigValue::Float(raw.spec_as_float_bits()),
            ValueType::Bool => ConfigValue::Bool(raw.spec_as_bool()),
        }
    }

    pub fn to_raw(self) -> (r: RawValue)
        ensures
            r == self.spec_to_raw(),
    {
        match self {
            ConfigValue::Int(i) => RawValue::from_int(i),
            ConfigValue::Float(f) => RawValue::from_float_bits(f),
            ConfigValue::Bool(b) => RawValue::from_bool(b),
        }
    }

    pub fn from_raw(raw: RawValue, ty: ValueType) -> (r: ConfigValue)
        ensures
            r == Self::spec_from_raw(raw, ty),
    {
        match ty {
            ValueType::Int => ConfigValue::Int(raw.as_int()),
            ValueType::Float => ConfigValue::Float(raw.as_float_bits()),
            ValueType::Bool => ConfigValue::Bool(raw.as_bool()),
        }
    }

    /// Extracts the integer. Reading with the wrong expected tag is a
    /// contract violation, so the precondition demands the tag.
    pub fn as_int(self) -> (r: i64)
        requires
            self is Int,
        ensures
            self == ConfigValue::Int(r),
    {
        match self {
            ConfigValue::Int(i) => i,
            _ => 0,
        }
    }

    /// Extracts the float bit pattern. Reading with the wrong expected
    /// tag is a contract violation, so the precondition demands the tag.
    pub fn as_float_bits(self) -> (r: u64)
        requires
            self is Float,
        ensures
            self == ConfigValue::Float(r),
    {
        match self {
            ConfigValue::Float(f) => f,
            _ => 0,
        }
    }

    /// Extracts the boolean. Reading with the wrong expected tag is a
    /// contract violation, so the precondition demands the tag.
    pub fn as_bool(self) -> (r: bool)
        requires
            self is Bool,
        ensures
            self == ConfigValue::Bool(r),
    {
        match self {
            ConfigValue::Bool(b) => b,
            _ => false,
        }
    }
}

/// Marshaling a tagged value into the untyped cell and decoding the cell
/// under the same tag yields the value again: no information is lost at
/// the boundary crossing.
pub proof fn lemma_config_value_round_trip(v: ConfigValue)
    ensures
        ConfigValue::spec_from_raw(v.spec_to_raw(), v.kind_spec()) == v,
{
    match v {
        ConfigValue::Int(i) => lemma_raw_int_round_trip(i),
        ConfigValue::Float(_) => (),
        ConfigValue::Bool(b) => lemma_raw_bool_round_trip(b),
    }
}

} // verus!
