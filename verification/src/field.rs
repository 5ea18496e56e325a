//! The column data-kind enumeration, column metadata, and the tagged field
//! value: the discriminated union that one decoded or encodable cell holds.

use vstd::prelude::*;

verus! {

use vstd::string::StringSliceAdditionalSpecFns;
use crate::text::{spec_lossy, spec_lower_bytes, spec_decimal, spec_decimal_signed};
use crate::text;
use crate::timestamp::{Timestamp, TimestampPrecision, spec_rendered};

/// The closed set of column data kinds. `Unknown` is a defensive default for
/// an unrecognized numeric kind, never produced intentionally.
#[derive(Debug, Clone, Copy, PartialEq, Eq, Structural)]
pub enum TaosDataType {
    Null,
    Bool,
    TinyInt,
    SmallInt,
    Int,
    BigInt,
    Float,
    Double,
    Binary,
    Timestamp,
    NChar,
    UTinyInt,
    USmallInt,
    UInt,
    UBigInt,
    Json,
    Unknown,
}

impl TaosDataType {
    /// The numeric kind value the engine uses for this data type.
    pub open spec fn spec_value(self) -> int {
        match self {
            TaosDataType::Null => 0,
            TaosDataType::Bool => 1,
            TaosDataType::TinyInt => 2,
            TaosDataType::SmallInt => 3,
            TaosDataType::Int => 4,
            TaosDataType::BigInt => 5,
            TaosDataType::Float => 6,
            TaosDataType::Double => 7,
            TaosDataType::Binary => 8,
            TaosDataType::Timestamp => 9,
            TaosDataType::NChar => 10,
            TaosDataType::UTinyInt => 11,
            TaosDataType::USmallInt => 12,
            TaosDataType::UInt => 13,
            TaosDataType::UBigInt => 14,
            TaosDataType::Json => 15,
            TaosDataType::Unknown => 255,
        }
    }

    pub fn value(self) -> (r: u8)
        ensures
            r == self.spec_value(),
    {
        match self {
            TaosDataType::Null => 0,
            TaosDataType::Bool => 1,
            TaosDataType::TinyInt => 2,
            TaosDataType::SmallInt => 3,
            TaosDataType::Int => 4,
            TaosDataType::BigInt => 5,
            TaosDataType::Float => 6,
            TaosDataType::Double => 7,
            TaosDataType::Binary => 8,
            TaosDataType::Timestamp => 9,
            TaosDataType::NChar => 10,
            TaosDataType::UTinyInt => 11,
            TaosDataType::USmallInt => 12,
            TaosDataType::UInt => 13,
            TaosDataType::UBigInt => 14,
            TaosDataType::Json => 15,
            TaosDataType::Unknown => 255,
        }
    }

    /// The data type for a numeric kind value: values 0 through 15 are the
    /// named kinds, every other value is `Unknown`.
    pub open spec fn spec_from_value(v: int) -> TaosDataType {
        if v == 0 {
            TaosDataType::Null
        } else if v == 1 {
            TaosDataType::Bool
        } else if v == 2 {
            TaosDataType::TinyInt
        } else if v == 3 {
            TaosDataType::SmallInt
        } else if v == 4 {
            TaosDataType::Int
        } else if v == 5 {
            TaosDataType::BigInt
        } else if v == 6 {
            TaosDataType::Float
        } else if v == 7 {
            TaosDataType::Double
        } else if v == 8 {
            TaosDataType::Binary
        } else if v == 9 {
            TaosDataType::Timestamp
        } else if v == 10 {
            TaosDataType::NChar
        } else if v == 11 {
            TaosDataType::UTinyInt
        } else if v == 12 {
            TaosDataType::USmallInt
        } else if v == 13 {
            TaosDataType::UInt
        } else if v == 14 {
            TaosDataType::UBigInt
        } else if v == 15 {
            TaosDataType::Json
        } else {
            TaosDataType::Unknown
        }
    }

    pub fn from_value(v: u8) -> (r: TaosDataType)
        ensures
            r == TaosDataType::spec_from_value(v as int),
    {
        match v {
            0 => TaosDataType::Null,
            1 => TaosDataType::Bool,
            2 => TaosDataType::TinyInt,
            3 => TaosDataType::SmallInt,
            4 => TaosDataType::Int,
            5 => TaosDataType::BigInt,
            6 => TaosDataType::Float,
            7 => TaosDataType::Double,
            8 => TaosDataType::Binary,
            9 => TaosDataType::Timestamp,
            10 => TaosDataType::NChar,
            11 => TaosDataType::UTinyInt,
            12 => TaosDataType::USmallInt,
            13 => TaosDataType::UInt,
            14 => TaosDataType::UBigInt,
            15 => TaosDataType::Json,
            _ => TaosDataType::Unknown,
        }
    }

    /// The byte width of a fixed-width kind; `None` for the variable-width
    /// and valueless kinds.
    pub open spec fn spec_fixed_width(self) -> Option<int> {
        match self {
            TaosDataType::Bool => Some(1),
            TaosDataType::TinyInt => Some(1),
            TaosDataType::SmallInt => Some(2),
            TaosDataType::Int => Some(4),
            TaosDataType::BigInt => Some(8),
            TaosDataType::Float => Some(4),
            TaosDataType::Double => Some(8),
            TaosDataType::Timestamp => Some(8),
            TaosDataType::UTinyInt => Some(1),
            TaosDataType::USmallInt => Some(2),
            TaosDataType::UInt => Some(4),
            TaosDataType::UBigInt => Some(8),
            _ => None,
        }
    }

    pub fn fixed_width(self) -> (r: Option<usize>)
        ensures
            match r {
                Some(w) => self.spec_fixed_width() == Some(w as int),
                None => self.spec_fixed_width() is None,
            },
    {
        match self {
            TaosDataType::Bool => Some(1),
            TaosDataType::TinyInt => Some(1),
            TaosDataType::SmallInt => Some(2),
            TaosDataType::Int => Some(4),
            TaosDataType::BigInt => Some(8),
            TaosDataType::Float => Some(4),
            TaosDataType::Double => Some(8),
            TaosDataType::Timestamp => Some(8),
            TaosDataType::UTinyInt => Some(1),
            TaosDataType::USmallInt => Some(2),
            TaosDataType::UInt => Some(4),
            TaosDataType::UBigInt => Some(8),
            _ => None,
        }
    }

    /// The data type whose lower-cased name is the given byte text, or
    /// `None` if it is no type name.
    pub open spec fn spec_from_name_bytes(low: Seq<u8>) -> Option<TaosDataType> {
        if low == "timestamp".spec_bytes() {
            Some(TaosDataType::Timestamp)
        } else if low == "bool".spec_bytes() {
            Some(TaosDataType::Bool)
        } else if low == "tinyint".spec_bytes() {
            Some(TaosDataType::TinyInt)
        } else if low == "smallint".spec_bytes() {
            Some(TaosDataType::SmallInt)
        } else if low == "int".spec_bytes() {
            Some(TaosDataType::Int)
        } else if low == "bigint".spec_bytes() {
            Some(TaosDataType::BigInt)
        } else if low == "tinyint unsigned".spec_bytes() {
            Some(TaosDataType::UTinyInt)
        } else if low == "smallint unsigned".spec_bytes() {
            Some(TaosDataType::USmallInt)
        } else if low == "int unsigned".spec_bytes() {
            Some(TaosDataType::UInt)
        } else if low == "bigint unsigned".spec_bytes() {
            Some(TaosDataType::UBigInt)
        } else if low == "float".spec_bytes() {
            Some(TaosDataType::Float)
        } else if low == "double".spec_bytes() {
            Some(TaosDataType::Double)
        } else if low == "binary".spec_bytes() {
            Some(TaosDataType::Binary)
        } else if low == "nchar".spec_bytes() {
            Some(TaosDataType::NChar)
        } else {
            None
        }
    }

    /// What `from_type_name` yields for a type-name text: its bytes are
    /// lower-cased (ASCII) and matched against the known type names.
    pub open spec fn spec_from_type_name(s: &str) -> Option<TaosDataType> {
        TaosDataType::spec_from_name_bytes(spec_lower_bytes(s.spec_bytes()))
    }

    /// Parse a type name, as the engine spells it in a table description
    /// (`int`, `bigint unsigned`, ...), case-insensitively.
    pub fn from_type_name(s: &str) -> (r: Result<TaosDataType, &'static str>)
        ensures
            match r {
                Ok(t) => TaosDataType::spec_from_type_name(s) == Some(t),
                Err(m) => {
                    &&& TaosDataType::spec_from_type_name(s) is None
                    &&& m@ == "not a valid data type string"@
                },
            },
    {
        let low = text::lower_bytes(s.as_bytes());
        if text::bytes_eq_str(&low, "timestamp") {
            Ok(TaosDataType::Timestamp)
        } else if text::bytes_eq_str(&low, "bool") {
            Ok(TaosDataType::Bool)
        } else if text::bytes_eq_str(&low, "tinyint") {
            Ok(TaosDataType::TinyInt)
        } else if text::bytes_eq_str(&low, "smallint") {
            Ok(TaosDataType::SmallInt)
        } else if text::bytes_eq_str(&low, "int") {
            Ok(TaosDataType::Int)
        } else if text::bytes_eq_str(&low, "bigint") {
            Ok(TaosDataType::BigInt)
        } else if text::bytes_eq_str(&low, "tinyint unsigned") {
            Ok(TaosDataType::UTinyInt)
        } else if text::bytes_eq_str(&low, "smallint unsigned") {
            Ok(TaosDataType::USmallInt)
        } else if text::bytes_eq_str(&low, "int unsigned") {
            Ok(TaosDataType::UInt)
        } else if text::bytes_eq_str(&low, "bigint unsigned") {
            Ok(TaosDataType::UBigInt)
        } else if text::bytes_eq_str(&low, "float") {
            Ok(TaosDataType::Float)
        } else if text::bytes_eq_str(&low, "double") {
            Ok(TaosDataType::Double)
        } else if text::bytes_eq_str(&low, "binary") {
            Ok(TaosDataType::Binary)
        } else if text::bytes_eq_str(&low, "nchar") {
            Ok(TaosDataType::NChar)
        } else {
            Err("not a valid data type string")
        }
    }
}

/// One decoded or encodable cell value. The `Float` and `Double` variants
/// carry the IEEE-754 bit pattern of the value, which is exactly what the
/// engine's buffers hold for those kinds; `Binary` carries raw bytes,
/// `NChar` UTF-8 text, and `Json` the canonical text of a parsed JSON
/// document.
#[derive(Debug, Clone)]
pub enum Field {
    Null,
    Bool(bool),
    TinyInt(i8),
    SmallInt(i16),
    Int(i32),
    BigInt(i64),
    Float(u32),
    Double(u64),
    Binary(Vec<u8>),
    Timestamp(Timestamp),
    NChar(String),
    UTinyInt(u8),
    USmallInt(u16),
    UInt(u32),
    UBigInt(u64),
    Json(String),
}

/// The mathematical shape of a `Field`: byte and character payloads as
/// sequences, everything else as itself.
pub enum FieldView {
    Null,
    Bool(bool),
    TinyInt(i8),
    SmallInt(i16),
    Int(i32),
    BigInt(i64),
    Float(u32),
    Double(u64),
    Binary(Seq<u8>),
    Timestamp(Timestamp),
    NChar(Seq<char>),
    UTinyInt(u8),
    USmallInt(u16),
    UInt(u32),
    UBigInt(u64),
    Json(Seq<char>),
}

impl FieldView {
    /// The data kind this value belongs to.
    pub open spec fn tag(self) -> TaosDataType {
        match self {
            FieldView::Null => TaosDataType::Null,
            FieldView::Bool(_) => TaosDataType::Bool,
            FieldView::TinyInt(_) => TaosDataType::TinyInt,
            FieldView::SmallInt(_) => TaosDataType::SmallInt,
            FieldView::Int(_) => TaosDataType::Int,
            FieldView::BigInt(_) => TaosDataType::BigInt,
            FieldView::Float(_) => TaosDataType::Float,
            FieldView::Double(_) => TaosDataType::Double,
            FieldView::Binary(_) => TaosDataType::Binary,
            FieldView::Timestamp(_) => TaosDataType::Timestamp,
            FieldView::NChar(_) => TaosDataType::NChar,
            FieldView::UTinyInt(_) => TaosDataType::UTinyInt,
            FieldView::USmallInt(_) => TaosDataType::USmallInt,
            FieldView::UInt(_) => TaosDataType::UInt,
            FieldView::UBigInt(_) => TaosDataType::UBigInt,
            FieldView::Json(_) => TaosDataType::Json,
        }
    }
}

impl View for Field {
    type V = FieldView;

    open spec fn view(&self) -> FieldView {
        match self {
            Field::Null => FieldView::Null,
            Field::Bool(v) => FieldView::Bool(*v),
            Field::TinyInt(v) => FieldView::TinyInt(*v),
            Field::SmallInt(v) => FieldView::SmallInt(*v),
            Field::Int(v) => FieldView::Int(*v),
            Field::BigInt(v) => FieldView::BigInt(*v),
            Field::Float(v) => FieldView::Float(*v),
            Field::Double(v) => FieldView::Double(*v),
            Field::Binary(v) => FieldView::Binary(v@),
            Field::Timestamp(v) => FieldView::Timestamp(*v),
            Field::NChar(v) => FieldView::NChar(v@),
            Field::UTinyInt(v) => FieldView::UTinyInt(*v),
            Field::USmallInt(v) => FieldView::USmallInt(*v),
            Field::UInt(v) => FieldView::UInt(*v),
            Field::UBigInt(v) => FieldView::UBigInt(*v),
            Field::Json(v) => FieldView::Json(v@),
        }
    }
}

/// Compare two byte vectors by contents.
fn vec_u8_eq(a: &Vec<u8>, b: &Vec<u8>) -> (r: bool)
    ensures
        r == (a@ == b@),
{
    if a.len() != b.len() {
        proof {
            assert(a@ != b@);
        }
        return false;
    }
    let mut i: usize = 0;
    while i < a.len()
        invariant
            i <= a@.len(),
            a@.len() == b@.len(),
            forall|j: int| 0 <= j < i ==> a@[j] == b@[j],
        decreases a@.len() - i,
    {
        if a[i] != b[i] {
            proof {
                assert(a@ != b@);
            }
            return false;
        }
        i = i + 1;
    }
    proof {
        assert(a@ =~= b@);
    }
    true
}

impl PartialEq for Field {
    /// Two fields are equal when they are the same variant carrying the
    /// same value; payloads compare by contents.
    fn eq(&self, other: &Field) -> (r: bool) {
        match (self, other) {
            (Field::Null, Field::Null) => true,
            (Field::Bool(a), Field::Bool(b)) => a == b,
            (Field::TinyInt(a), Field::TinyInt(b)) => a == b,
            (Field::SmallInt(a), Field::SmallInt(b)) => a == b,
            (Field::Int(a), Field::Int(b)) => a == b,
            (Field::BigInt(a), Field::BigInt(b)) => a == b,
            (Field::Float(a), Field::Float(b)) => a == b,
            (Field::Double(a), Field::Double(b)) => a == b,
            (Field::Binary(a), Field::Binary(b)) => vec_u8_eq(a, b),
            (Field::Timestamp(a), Field::Timestamp(b)) => a == b,
            (Field::NChar(a), Field::NChar(b)) => a.eq(b),
            (Field::UTinyInt(a), Field::UTinyInt(b)) => a == b,
            (Field::USmallInt(a), Field::USmallInt(b)) => a == b,
            (Field::UInt(a), Field::UInt(b)) => a == b,
            (Field::UBigInt(a), Field::UBigInt(b)) => a == b,
            (Field::Json(a), Field::Json(b)) => a.eq(b),
            _ => false,
        }
    }
}

impl vstd::std_specs::cmp::PartialEqSpecImpl for Field {
    open spec fn obeys_eq_spec() -> bool {
        true
    }

    open spec fn eq_spec(&self, other: &Field) -> bool {
        self@ == other@
    }
}

impl Field {
    pub fn as_bool(&self) -> (r: Option<&bool>)
        ensures
            match r {
                Some(v) => self@ == FieldView::Bool(*v),
                None => !(self@ is Bool),
            },
    {
        match self {
            Field::Bool(v) => Some(v),
            _ => None,
        }
    }

    pub fn as_tiny_int(&self) -> (r: Option<&i8>)
        ensures
            match r {
                Some(v) => self@ == FieldView::TinyInt(*v),
                None => !(self@ is TinyInt),
            },
    {
        match self {
            Field::TinyInt(v) => Some(v),
            _ => None,
        }
    }

    pub fn as_small_int(&self) -> (r: Option<&i16>)
        ensures
            match r {
                Some(v) => self@ == FieldView::SmallInt(*v),
                None => !(self@ is SmallInt),
            },
    {
        match self {
            Field::SmallInt(v) => Some(v),
            _ => None,
        }
    }

    pub fn as_int(&self) -> (r: Option<&i32>)
        ensures
            match r {
                Some(v) => self@ == FieldView::Int(*v),
                None => !(self@ is Int),
            },
    {
        match self {
            Field::Int(v) => Some(v),
            _ => None,
        }
    }

    pub fn as_big_int(&self) -> (r: Option<&i64>)
        ensures
            match r {
                Some(v) => self@ == FieldView::BigInt(*v),
                None => !(self@ is BigInt),
            },
    {
        match self {
            Field::BigInt(v) => Some(v),
            _ => None,
        }
    }

    /// The IEEE-754 bit pattern of a single-precision value.
    pub fn as_float(&self) -> (r: Option<&u32>)
        ensures
            match r {
                Some(v) => self@ == FieldView::Float(*v),
                None => !(self@ is Float),
            },
    {
        match self {
            Field::Float(v) => Some(v),
            _ => None,
        }
    }

    /// The IEEE-754 bit pattern of a double-precision value.
    pub fn as_double(&self) -> (r: Option<&u64>)
        ensures
            match r {
                Some(v) => self@ == FieldView::Double(*v),
                None => !(self@ is Double),
            },
    {
        match self {
            Field::Double(v) => Some(v),
            _ => None,
        }
    }

    pub fn as_binary(&self) -> (r: Option<&Vec<u8>>)
        ensures
            match r {
                Some(v) => self@ == FieldView::Binary(v@),
                None => !(self@ is Binary),
            },
    {
        match self {
            Field::Binary(v) => Some(v),
            _ => None,
        }
    }

    pub fn as_nchar(&self) -> (r: Option<&str>)
        ensures
            match r {
                Some(v) => self@ == FieldView::NChar(v@),
                None => !(self@ is NChar),
            },
    {
        match self {
            Field::NChar(v) => Some(v.as_str()),
            _ => None,
        }
    }

    /// The text of a `Binary` or `NChar` field: `Binary` bytes decode
    /// leniently, `NChar` text is returned as it is.
    pub fn as_string(&self) -> (r: Option<String>)
        ensures
            match r {
                Some(s) => {
                    match self@ {
                        FieldView::Binary(b) => s@ == spec_lossy(b),
                        FieldView::NChar(c) => s@ == c,
                        _ => false,
                    }
                },
                None => !(self@ is Binary) && !(self@ is NChar),
            },
    {
        match self {
            Field::Binary(v) => Some(text::bytes_to_string_lossy(v.as_slice())),
            Field::NChar(v) => Some(v.clone()),
            _ => None,
        }
    }

    pub fn as_timestamp(&self) -> (r: Option<&Timestamp>)
        ensures
            match r {
                Some(v) => self@ == FieldView::Timestamp(*v),
                None => !(self@ is Timestamp),
            },
    {
        match self {
            Field::Timestamp(v) => Some(v),
            _ => None,
        }
    }

    /// The raw offset of a `Timestamp` field.
    pub fn as_raw_timestamp(&self) -> (r: Option<i64>)
        ensures
            match r {
                Some(v) => self@ matches FieldView::Timestamp(t) && t.timestamp == v,
                None => !(self@ is Timestamp),
            },
    {
        match self {
            Field::Timestamp(v) => Some(v.as_raw_timestamp()),
            _ => None,
        }
    }

    pub fn as_unsigned_tiny_int(&self) -> (r: Option<&u8>)
        ensures
            match r {
                Some(v) => self@ == FieldView::UTinyInt(*v),
                None => !(self@ is UTinyInt),
            },
    {
        match self {
            Field::UTinyInt(v) => Some(v),
            _ => None,
        }
    }

    pub fn as_unsigned_samll_int(&self) -> (r: Option<&u16>)
        ensures
            match r {
                Some(v) => self@ == FieldView::USmallInt(*v),
                None => !(self@ is USmallInt),
            },
    {
        match self {
            Field::USmallInt(v) => Some(v),
            _ => None,
        }
    }

    pub fn as_unsigned_int(&self) -> (r: Option<&u32>)
        ensures
            match r {
                Some(v) => self@ == FieldView::UInt(*v),
                None => !(self@ is UInt),
            },
    {
        match self {
            Field::UInt(v) => Some(v),
            _ => None,
        }
    }

    pub fn as_unsigned_big_int(&self) -> (r: Option<&u64>)
        ensures
            match r {
                Some(v) => self@ == FieldView::UBigInt(*v),
                None => !(self@ is UBigInt),
            },
    {
        match self {
            Field::UBigInt(v) => Some(v),
            _ => None,
        }
    }

    /// The canonical text of a `Json` field.
    pub fn as_json(&self) -> (r: Option<&str>)
        ensures
            match r {
                Some(v) => self@ == FieldView::Json(v@),
                None => !(self@ is Json),
            },
    {
        match self {
            Field::Json(v) => Some(v.as_str()),
            _ => None,
        }
    }

    /// The data kind this value belongs to.
    pub open spec fn spec_data_type(self) -> TaosDataType {
        match self {
            Field::Null => TaosDataType::Null,
            Field::Bool(_) => TaosDataType::Bool,
            Field::TinyInt(_) => TaosDataType::TinyInt,
            Field::SmallInt(_) => TaosDataType::SmallInt,
            Field::Int(_) => TaosDataType::Int,
            Field::BigInt(_) => TaosDataType::BigInt,
            Field::Float(_) => TaosDataType::Float,
            Field::Double(_) => TaosDataType::Double,
            Field::Binary(_) => TaosDataType::Binary,
            Field::Timestamp(_) => TaosDataType::Timestamp,
            Field::NChar(_) => TaosDataType::NChar,
            Field::UTinyInt(_) => TaosDataType::UTinyInt,
            Field::USmallInt(_) => TaosDataType::USmallInt,
            Field::UInt(_) => TaosDataType::UInt,
            Field::UBigInt(_) => TaosDataType::UBigInt,
            Field::Json(_) => TaosDataType::Json,
        }
    }

    pub fn data_type(&self) -> (r: TaosDataType)
        ensures
            r == self.spec_data_type(),
            r == self@.tag(),
    {
        match self {
            Field::Null => TaosDataType::Null,
            Field::Bool(_) => TaosDataType::Bool,
            Field::TinyInt(_) => TaosDataType::TinyInt,
            Field::SmallInt(_) => TaosDataType::SmallInt,
            Field::Int(_) => TaosDataType::Int,
            Field::BigInt(_) => TaosDataType::BigInt,
            Field::Float(_) => TaosDataType::Float,
            Field::Double(_) => TaosDataType::Double,
            Field::Binary(_) => TaosDataType::Binary,
            Field::Timestamp(_) => TaosDataType::Timestamp,
            Field::NChar(_) => TaosDataType::NChar,
            Field::UTinyInt(_) => TaosDataType::UTinyInt,
            Field::USmallInt(_) => TaosDataType::USmallInt,
            Field::UInt(_) => TaosDataType::UInt,
            Field::UBigInt(_) => TaosDataType::UBigInt,
            Field::Json(_) => TaosDataType::Json,
        }
    }

    /// The text this field displays as, by variant. Meaningless for the
    /// float variants, which this library renders only outside the
    /// verified core.
    pub open spec fn spec_text(self) -> Seq<char> {
        match self {
            Field::Null => "NULL"@,
            Field::Bool(v) => if v {
                "true"@
            } else {
                "false"@
            },
            Field::TinyInt(v) => spec_decimal_signed(v as int),
            Field::SmallInt(v) => spec_decimal_signed(v as int),
            Field::Int(v) => spec_decimal_signed(v as int),
            Field::BigInt(v) => spec_decimal_signed(v as int),
            Field::Float(v) => Seq::empty(),
            Field::Double(v) => Seq::empty(),
            Field::Binary(v) => spec_lossy(v@),
            Field::Timestamp(v) => match spec_rendered(v) {
                Some(s) => s,
                None => Seq::empty(),
            },
            Field::NChar(v) => v@,
            Field::UTinyInt(v) => spec_decimal(v as int),
            Field::USmallInt(v) => spec_decimal(v as int),
            Field::UInt(v) => spec_decimal(v as int),
            Field::UBigInt(v) => spec_decimal(v as int),
            Field::Json(v) => v@,
        }
    }

    /// Display this field as text: `NULL` for null, decimal for the integer
    /// kinds, the payload text for the text-like kinds, and the calendar
    /// rendering for timestamps. `None` exactly for a timestamp whose
    /// offset leaves the representable calendar range.
    pub fn to_text(&self) -> (r: Option<String>)
        requires
            !(*self is Float),
            !(*self is Double),
            *self matches Field::Timestamp(t) ==> t.precision != TimestampPrecision::Unknown,
        ensures
            r matches Some(s) ==> s@ == self.spec_text(),
            r is None <==> (*self matches Field::Timestamp(t) && spec_rendered(t) is None),
    {
        match self {
            Field::Null => Some(String::from_str("NULL")),
            Field::Bool(v) => Some(
                if *v {
                    String::from_str("true")
                } else {
                    String::from_str("false")
                },
            ),
            Field::TinyInt(v) => Some(text::decimal_i64(*v as i64)),
            Field::SmallInt(v) => Some(text::decimal_i64(*v as i64)),
            Field::Int(v) => Some(text::decimal_i64(*v as i64)),
            Field::BigInt(v) => Some(text::decimal_i64(*v)),
            Field::Float(_) => None,
            Field::Double(_) => None,
            Field::Binary(v) => Some(text::bytes_to_string_lossy(v.as_slice())),
            Field::Timestamp(v) => v.to_text(),
            Field::NChar(v) => Some(v.clone()),
            Field::UTinyInt(v) => Some(text::decimal_u64(*v as u64)),
            Field::USmallInt(v) => Some(text::decimal_u64(*v as u64)),
            Field::UInt(v) => Some(text::decimal_u64(*v as u64)),
            Field::UBigInt(v) => Some(text::decimal_u64(*v)),
            Field::Json(v) => Some(v.clone()),
        }
    }
}

/// Conversion of an ergonomic source value into the `Field` variant of its
/// kind, so callers need not construct `Field` values by hand.
pub trait IntoField {
    /// The view of the field this value converts to.
    spec fn spec_field(&self) -> FieldView;

    fn into_field(self) -> (r: Field)
        ensures
            r@ == self.spec_field(),
    ;
}

impl IntoField for bool {
    open spec fn spec_field(&self) -> FieldView {
        FieldView::Bool(*self)
    }

    fn into_field(self) -> (r: Field) {
        Field::Bool(self)
    }
}

impl IntoField for i8 {
    open spec fn spec_field(&self) -> FieldView {
        FieldView::TinyInt(*self)
    }

    fn into_field(self) -> (r: Field) {
        Field::TinyInt(self)
    }
}

impl IntoField for i16 {
    open spec fn spec_field(&self) -> FieldView {
        FieldView::SmallInt(*self)
    }

    fn into_field(self) -> (r: Field) {
        Field::SmallInt(self)
    }
}

impl IntoField for i32 {
    open spec fn spec_field(&self) -> FieldView {
        FieldView::Int(*self)
    }

    fn into_field(self) -> (r: Field) {
        Field::Int(self)
    }
}

impl IntoField for i64 {
    open spec fn spec_field(&self) -> FieldView {
        FieldView::BigInt(*self)
    }

    fn into_field(self) -> (r: Field) {
        Field::BigInt(self)
    }
}

impl IntoField for u8 {
    open spec fn spec_field(&self) -> FieldView {
        FieldView::UTinyInt(*self)
    }

    fn into_field(self) -> (r: Field) {
        Field::UTinyInt(self)
    }
}

impl IntoField for u16 {
    open spec fn spec_field(&self) -> FieldView {
        FieldView::USmallInt(*self)
    }

    fn into_field(self) -> (r: Field) {
        Field::USmallInt(self)
    }
}

impl IntoField for u32 {
    open spec fn spec_field(&self) -> FieldView {
        FieldView::UInt(*self)
    }

    fn into_field(self) -> (r: Field) {
        Field::UInt(self)
    }
}

impl IntoField for u64 {
    open spec fn spec_field(&self) -> FieldView {
        FieldView::UBigInt(*self)
    }

    fn into_field(self) -> (r: Field) {
        Field::UBigInt(self)
    }
}

impl IntoField for String {
    open spec fn spec_field(&self) -> FieldView {
        FieldView::NChar(self@)
    }

    fn into_field(self) -> (r: Field) {
        Field::NChar(self)
    }
}

impl IntoField for &str {
    open spec fn spec_field(&self) -> FieldView {
        FieldView::NChar(self@)
    }

    fn into_field(self) -> (r: Field) {
        Field::NChar(self.to_owned())
    }
}

impl IntoField for Vec<u8> {
    open spec fn spec_field(&self) -> FieldView {
        FieldView::Binary(self@)
    }

    fn into_field(self) -> (r: Field) {
        Field::Binary(self)
    }
}

impl IntoField for Timestamp {
    open spec fn spec_field(&self) -> FieldView {
        FieldView::Timestamp(*self)
    }

    fn into_field(self) -> (r: Field) {
        Field::Timestamp(self)
    }
}

impl IntoField for Field {
    open spec fn spec_field(&self) -> FieldView {
        self@
    }

    fn into_field(self) -> (r: Field) {
        self
    }
}

} // verus!
