//! The result decoder's cell and row interpretation: raw column buffers,
//! as the engine's row fetch hands them over, become tagged field values.

use vstd::prelude::*;

verus! {

use vstd::bytes::{
    spec_u16_from_le_bytes,
    spec_u32_from_le_bytes,
    spec_u64_from_le_bytes,
    u16_from_le_bytes,
    u32_from_le_bytes,
    u64_from_le_bytes,
};
use crate::field::{Field, FieldView, TaosDataType};
use crate::ints::{spec_signed8, spec_signed16, spec_signed32, spec_signed64};
use crate::ints;
use crate::json::{json_canon, json_canonical};
use crate::query::ColumnMeta;
use crate::text::{bytes_to_string_lossy, spec_lossy};
use crate::timestamp::{Timestamp, TimestampPrecision};

/// The bytes of one fetched cell, or `None` for a null-marked cell.
pub open spec fn spec_cell_bytes(c: Option<Vec<u8>>) -> Option<Seq<u8>> {
    match c {
        Some(v) => Some(v@),
        None => None,
    }
}

/// What one cell decodes to: a null marker decodes to `Null` whatever the
/// declared kind; otherwise the raw bytes are read as the fixed-width
/// little-endian scalar of the column's kind, as raw bytes for `Binary`, as
/// leniently decoded text for `NChar`, as a signed offset carrying the
/// result's precision for `Timestamp`, and as a JSON document for `Json`,
/// where a payload that does not parse decodes to `Null` rather than
/// failing the row.
pub open spec fn spec_decode_cell(
    cell: Option<Seq<u8>>,
    tag: TaosDataType,
    precision: TimestampPrecision,
) -> FieldView {
    match cell {
        None => FieldView::Null,
        Some(b) => match tag {
            TaosDataType::Null => FieldView::Null,
            TaosDataType::Bool => FieldView::Bool(b[0] != 0),
            TaosDataType::TinyInt => FieldView::TinyInt(spec_signed8(b[0] as int) as i8),
            TaosDataType::SmallInt => FieldView::SmallInt(
                spec_signed16(spec_u16_from_le_bytes(b) as int) as i16,
            ),
            TaosDataType::Int => FieldView::Int(
                spec_signed32(spec_u32_from_le_bytes(b) as int) as i32,
            ),
            TaosDataType::BigInt => FieldView::BigInt(
                spec_signed64(spec_u64_from_le_bytes(b) as int) as i64,
            ),
            TaosDataType::Float => FieldView::Float(spec_u32_from_le_bytes(b)),
            TaosDataType::Double => FieldView::Double(spec_u64_from_le_bytes(b)),
            TaosDataType::Binary => FieldView::Binary(b),
            TaosDataType::Timestamp => FieldView::Timestamp(
                Timestamp {
                    timestamp: spec_signed64(spec_u64_from_le_bytes(b) as int) as i64,
                    precision,
                },
            ),
            TaosDataType::NChar => FieldView::NChar(spec_lossy(b)),
            TaosDataType::UTinyInt => FieldView::UTinyInt(b[0]),
            TaosDataType::USmallInt => FieldView::USmallInt(spec_u16_from_le_bytes(b)),
            TaosDataType::UInt => FieldView::UInt(spec_u32_from_le_bytes(b)),
            TaosDataType::UBigInt => FieldView::UBigInt(spec_u64_from_le_bytes(b)),
            TaosDataType::Json => match json_canon(b) {
                Some(c) => FieldView::Json(c),
                None => FieldView::Null,
            },
            TaosDataType::Unknown => FieldView::Null,
        },
    }
}

/// Decode one cell of a fetched row. A null marker yields `Null`; raw
/// bytes are interpreted by the column's declared kind, with the result's
/// precision attached to timestamps. An `Unknown` kind is a contract
/// violation between the engine's schema and this decoder, and is not
/// accepted.
pub fn decode_cell(cell: Option<&[u8]>, tag: TaosDataType, precision: TimestampPrecision) -> (r:
    Field)
    requires
        tag != TaosDataType::Unknown,
        cell matches Some(b) ==> match tag.spec_fixed_width() {
            Some(w) => b@.len() == w,
            None => true,
        },
    ensures
        r@ == spec_decode_cell(
            match cell {
                Some(b) => Some(b@),
                None => None,
            },
            tag,
            precision,
        ),
{
    let b = match cell {
        Some(b) => b,
        None => {
            return Field::Null;
        },
    };
    match tag {
        TaosDataType::Null => Field::Null,
        TaosDataType::Bool => Field::Bool(b[0] != 0),
        TaosDataType::TinyInt => Field::TinyInt(ints::u8_to_i8_bits(b[0])),
        TaosDataType::SmallInt => Field::SmallInt(ints::u16_to_i16_bits(u16_from_le_bytes(b))),
        TaosDataType::Int => Field::Int(ints::u32_to_i32_bits(u32_from_le_bytes(b))),
        TaosDataType::BigInt => Field::BigInt(ints::u64_to_i64_bits(u64_from_le_bytes(b))),
        TaosDataType::Float => Field::Float(u32_from_le_bytes(b)),
        TaosDataType::Double => Field::Double(u64_from_le_bytes(b)),
        TaosDataType::Binary => {
            let mut v: Vec<u8> = Vec::new();
            v.extend_from_slice(b);
            proof {
                assert(v@ =~= b@);
            }
            Field::Binary(v)
        },
        TaosDataType::Timestamp => Field::Timestamp(
            Timestamp { timestamp: ints::u64_to_i64_bits(u64_from_le_bytes(b)), precision },
        ),
        TaosDataType::NChar => Field::NChar(bytes_to_string_lossy(b)),
        TaosDataType::UTinyInt => Field::UTinyInt(b[0]),
        TaosDataType::USmallInt => Field::USmallInt(u16_from_le_bytes(b)),
        TaosDataType::UInt => Field::UInt(u32_from_le_bytes(b)),
        TaosDataType::UBigInt => Field::UBigInt(u64_from_le_bytes(b)),
        TaosDataType::Json => match json_canonical(b) {
            Some(s) => Field::Json(s),
            None => Field::Null,
        },
        TaosDataType::Unknown => Field::Null,
    }
}

/// A fetched row this decoder accepts: one cell per column, no `Unknown`
/// column kind, and each non-null fixed-width cell holding exactly the
/// kind's width.
pub open spec fn spec_row_wf(cells: Seq<Option<Vec<u8>>>, metas: Seq<ColumnMeta>) -> bool {
    &&& cells.len() == metas.len()
    &&& forall|i: int|
        0 <= i < metas.len() ==> (#[trigger] metas[i]).type_ != TaosDataType::Unknown
    &&& forall|i: int|
        0 <= i < cells.len() ==> match (#[trigger] cells[i]) {
            Some(b) => match metas[i].type_.spec_fixed_width() {
                Some(w) => b@.len() == w,
                None => true,
            },
            None => true,
        }
}

/// Decode one fetched row: per-column buffers (or null markers) become the
/// row's tagged field values, index-aligned with the column metadata.
pub fn decode_row(
    cells: &Vec<Option<Vec<u8>>>,
    metas: &Vec<ColumnMeta>,
    precision: TimestampPrecision,
) -> (r: Vec<Field>)
    requires
        spec_row_wf(cells@, metas@),
    ensures
        r@.len() == metas@.len(),
        forall|i: int|
            0 <= i < r@.len() ==> (#[trigger] r@[i])@ == spec_decode_cell(
                spec_cell_bytes(cells@[i]),
                metas@[i].type_,
                precision,
            ),
{
    let mut r: Vec<Field> = Vec::new();
    let mut i: usize = 0;
    while i < cells.len()
        invariant
            i <= cells@.len(),
            spec_row_wf(cells@, metas@),
            r@.len() == i,
            forall|j: int|
                0 <= j < i ==> (#[trigger] r@[j])@ == spec_decode_cell(
                    spec_cell_bytes(cells@[j]),
                    metas@[j].type_,
                    precision,
                ),
        decreases cells@.len() - i,
    {
        let f = match &cells[i] {
            Some(b) => decode_cell(Some(b.as_slice()), metas[i].type_, precision),
            None => decode_cell(None, metas[i].type_, precision),
        };
        r.push(f);
        i = i + 1;
    }
    r
}

} // verus!
