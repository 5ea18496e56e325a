//! The library's cross-cutting guarantees, stated and proved over the spec
//! functions that the encoder, the decoder and the statement binder are
//! verified against.

use vstd::prelude::*;

verus! {

use crate::bind::spec_encode_bytes;
use crate::decode::spec_decode_cell;
use crate::field::FieldView;
use crate::ints;
use crate::stmt::{
    StmtView,
    spec_after_bind,
    spec_after_encode,
    spec_after_execute,
    spec_after_release,
};
use crate::timestamp::TimestampPrecision;

/// Encoding a value and decoding the produced buffer under the value's own
/// kind reproduces the value exactly — for a timestamp, provided the same
/// precision is used on both sides, since the buffer carries the offset
/// alone; for a `Json` value, provided its text is canonical (as every
/// decoded `Json` field's is), since decoding re-canonicalizes the buffer.
/// A null value encodes to no buffer, which decodes back to null.
pub proof fn lemma_encode_decode_round_trip(fv: FieldView, precision: TimestampPrecision)
    requires
        fv matches FieldView::Timestamp(t) ==> t.precision == precision,
        fv matches FieldView::Json(c) ==> crate::json::json_canon(
            vstd::utf8::encode_utf8(c),
        ) == Some(c),
    ensures
        spec_decode_cell(spec_encode_bytes(fv), fv.tag(), precision) == fv,
{
    vstd::bytes::lemma_auto_spec_u16_to_from_le_bytes();
    vstd::bytes::lemma_auto_spec_u32_to_from_le_bytes();
    vstd::bytes::lemma_auto_spec_u64_to_from_le_bytes();
    match fv {
        FieldView::TinyInt(v) => {
            ints::lemma_signed8_round_trip(v as int, 0);
        },
        FieldView::SmallInt(v) => {
            ints::lemma_signed16_round_trip(v as int, 0);
            let u = ints::spec_unsigned16(v as int) as u16;
            assert(vstd::bytes::spec_u16_to_le_bytes(u).len() == 2);
        },
        FieldView::Int(v) => {
            ints::lemma_signed32_round_trip(v as int, 0);
            let u = ints::spec_unsigned32(v as int) as u32;
            assert(vstd::bytes::spec_u32_to_le_bytes(u).len() == 4);
        },
        FieldView::BigInt(v) => {
            ints::lemma_signed64_round_trip(v as int, 0);
        },
        FieldView::Float(bits) => {
            assert(vstd::bytes::spec_u32_to_le_bytes(bits).len() == 4);
        },
        FieldView::USmallInt(v) => {
            assert(vstd::bytes::spec_u16_to_le_bytes(v).len() == 2);
        },
        FieldView::UInt(v) => {
            assert(vstd::bytes::spec_u32_to_le_bytes(v).len() == 4);
        },
        FieldView::Timestamp(t) => {
            ints::lemma_signed64_round_trip(t.timestamp as int, 0);
        },
        FieldView::NChar(c) => {
            broadcast use vstd::utf8::group_utf8_lib;

            assert(vstd::utf8::valid_utf8(vstd::utf8::encode_utf8(c)));
            assert(vstd::utf8::decode_utf8(vstd::utf8::encode_utf8(c)) == c);
        },
        _ => {},
    }
}

/// Every encoded fixed-width value owns a buffer of exactly its kind's
/// width, so the buffers the encoder lends out satisfy what the decoder
/// demands of a fetched cell.
pub proof fn lemma_encoded_buffer_width(fv: FieldView)
    ensures
        spec_encode_bytes(fv) matches Some(b) ==> (match fv.tag().spec_fixed_width() {
            Some(w) => b.len() == w,
            None => true,
        }),
{
    vstd::bytes::lemma_auto_spec_u16_to_from_le_bytes();
    vstd::bytes::lemma_auto_spec_u32_to_from_le_bytes();
    vstd::bytes::lemma_auto_spec_u64_to_from_le_bytes();
    match fv {
        FieldView::SmallInt(v) => {
            assert(vstd::bytes::spec_u16_to_le_bytes(ints::spec_unsigned16(v as int) as u16).len()
                == 2);
        },
        FieldView::Int(v) => {
            assert(vstd::bytes::spec_u32_to_le_bytes(ints::spec_unsigned32(v as int) as u32).len()
                == 4);
        },
        FieldView::BigInt(v) => {
            assert(vstd::bytes::spec_u64_to_le_bytes(ints::spec_unsigned64(v as int) as u64).len()
                == 8);
        },
        FieldView::Float(bits) => {
            assert(vstd::bytes::spec_u32_to_le_bytes(bits).len() == 4);
        },
        FieldView::Double(bits) => {
            assert(vstd::bytes::spec_u64_to_le_bytes(bits).len() == 8);
        },
        FieldView::Timestamp(t) => {
            assert(vstd::bytes::spec_u64_to_le_bytes(
                ints::spec_unsigned64(t.timestamp as int) as u64,
            ).len() == 8);
        },
        FieldView::USmallInt(v) => {
            assert(vstd::bytes::spec_u16_to_le_bytes(v).len() == 2);
        },
        FieldView::UInt(v) => {
            assert(vstd::bytes::spec_u32_to_le_bytes(v).len() == 4);
        },
        FieldView::UBigInt(v) => {
            assert(vstd::bytes::spec_u64_to_le_bytes(v).len() == 8);
        },
        _ => {},
    }
}

/// A null value encodes to a descriptor with no value buffer and a set
/// null cell, and a null-marked cell decodes to a null value whatever the
/// column's declared kind.
pub proof fn lemma_null_encodes_and_decodes_as_null(
    tag: crate::field::TaosDataType,
    precision: TimestampPrecision,
)
    ensures
        crate::bind::spec_encoded_param(FieldView::Null).buffer is None,
        crate::bind::spec_encoded_param(FieldView::Null).is_null,
        spec_decode_cell(None, tag, precision) == FieldView::Null,
{
}

/// The binder's view after a sequence of successful binds, one per row,
/// each releasing the row's descriptors.
pub open spec fn spec_after_binds(m: StmtView, sizes: Seq<int>) -> StmtView
    decreases sizes.len(),
{
    if sizes.len() == 0 {
        m
    } else {
        spec_after_binds(spec_after_bind(m, sizes[0]), sizes.subrange(1, sizes.len() as int))
    }
}

/// Successful binds accumulate: each adds exactly one row to the batch and
/// flushes nothing.
pub proof fn lemma_binds_accumulate(m: StmtView, sizes: Seq<int>)
    ensures
        spec_after_binds(m, sizes).batched == m.batched + sizes.len(),
        spec_after_binds(m, sizes).submitted == m.submitted,
    decreases sizes.len(),
{
    if sizes.len() > 0 {
        lemma_binds_accumulate(spec_after_bind(m, sizes[0]), sizes.subrange(1, sizes.len() as int));
    }
}

/// Binding `N` rows into an empty batch and then executing flushes exactly
/// `N` rows to the engine — no more and no fewer.
pub proof fn lemma_bind_n_then_execute_inserts_n(m: StmtView, sizes: Seq<int>)
    requires
        m.batched == 0,
    ensures
        spec_after_execute(spec_after_binds(m, sizes)).submitted == m.submitted + sizes.len(),
        spec_after_execute(spec_after_binds(m, sizes)).batched == 0,
{
    lemma_binds_accumulate(m, sizes);
}

/// One bind cycle releases each descriptor it allocated exactly once:
/// starting from a ledger with nothing outstanding, encoding a row of `n`
/// values and then recording the bind's outcome — successful or failed —
/// leaves the ledger balanced again, with exactly `n` more allocations and
/// `n` more releases. A descriptor can never be released twice: release
/// demands a live descriptor and leaves it dead.
pub proof fn lemma_bind_cycle_releases_exactly_once(m: StmtView, n: int)
    requires
        m.balanced(),
        n >= 0,
    ensures
        spec_after_bind(spec_after_encode(m, n), n).balanced(),
        spec_after_release(spec_after_encode(m, n), n).balanced(),
        spec_after_bind(spec_after_encode(m, n), n).released == m.released + n,
        spec_after_release(spec_after_encode(m, n), n).released == m.released + n,
{
}

} // verus!
