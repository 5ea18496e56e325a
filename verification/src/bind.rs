//! The parameter encoder: one value becomes one buffer descriptor, the
//! owned, lend-once memory block (plus length and null cells) that is handed
//! to the engine's bind call and must afterwards be released exactly once.

use vstd::prelude::*;

verus! {

use vstd::bytes::{
    spec_u16_to_le_bytes,
    spec_u32_to_le_bytes,
    spec_u64_to_le_bytes,
    u16_to_le_bytes,
    u32_to_le_bytes,
    u64_to_le_bytes,
};
use vstd::string::{StringSliceAdditionalSpecFns, StrSliceExecFns};
use vstd::utf8::encode_utf8;
use crate::field::{Field, FieldView, TaosDataType};
use crate::ints::{spec_unsigned8, spec_unsigned16, spec_unsigned32, spec_unsigned64};
use crate::ints;
use crate::timestamp::Timestamp;

/// The mathematical shape of a buffer descriptor: the declared kind, the
/// owned value buffer (absent for a null bind), the length cell, the
/// is-null cell, and whether the descriptor is still live — constructed but
/// not yet released.
pub struct BindParamView {
    pub buffer_type: TaosDataType,
    pub buffer: Option<Seq<u8>>,
    pub length: Option<int>,
    pub is_null: bool,
    pub live: bool,
}

/// One bind parameter: a buffer descriptor owning the heap buffer for one
/// value. The engine's bind call only borrows a descriptor; the encoder
/// that allocated it must release it exactly once, which `release`
/// enforces: a released descriptor cannot be released again, nor lent out.
#[derive(Debug)]
pub struct BindParam {
    buffer_type: TaosDataType,
    buffer: Option<Vec<u8>>,
    length: Option<usize>,
    is_null: bool,
    live: bool,
}

impl View for BindParam {
    type V = BindParamView;

    closed spec fn view(&self) -> BindParamView {
        BindParamView {
            buffer_type: self.buffer_type,
            buffer: match self.buffer {
                Some(ref v) => Some(v@),
                None => None,
            },
            length: match self.length {
                Some(l) => Some(l as int),
                None => None,
            },
            is_null: self.is_null,
            live: self.live,
        }
    }
}

/// The value bytes one field encodes to: the little-endian pattern of its
/// width for the scalar kinds, the raw bytes for `Binary`, the UTF-8 bytes
/// for `NChar` and `Json`, the 8-byte signed offset for `Timestamp` — and
/// nothing for `Null`.
pub open spec fn spec_encode_bytes(fv: FieldView) -> Option<Seq<u8>> {
    match fv {
        FieldView::Null => None,
        FieldView::Bool(b) => Some(
            seq![
                if b {
                    1u8
                } else {
                    0u8
                },
            ],
        ),
        FieldView::TinyInt(v) => Some(seq![spec_unsigned8(v as int) as u8]),
        FieldView::SmallInt(v) => Some(spec_u16_to_le_bytes(spec_unsigned16(v as int) as u16)),
        FieldView::Int(v) => Some(spec_u32_to_le_bytes(spec_unsigned32(v as int) as u32)),
        FieldView::BigInt(v) => Some(spec_u64_to_le_bytes(spec_unsigned64(v as int) as u64)),
        FieldView::Float(bits) => Some(spec_u32_to_le_bytes(bits)),
        FieldView::Double(bits) => Some(spec_u64_to_le_bytes(bits)),
        FieldView::Binary(b) => Some(b),
        FieldView::Timestamp(t) => Some(
            spec_u64_to_le_bytes(spec_unsigned64(t.timestamp as int) as u64),
        ),
        FieldView::NChar(c) => Some(encode_utf8(c)),
        FieldView::UTinyInt(v) => Some(seq![v]),
        FieldView::USmallInt(v) => Some(spec_u16_to_le_bytes(v)),
        FieldView::UInt(v) => Some(spec_u32_to_le_bytes(v)),
        FieldView::UBigInt(v) => Some(spec_u64_to_le_bytes(v)),
        FieldView::Json(c) => Some(encode_utf8(c)),
    }
}

/// The descriptor one field encodes to: a null bind carries no buffer and a
/// set null cell; every other value carries its value bytes, the length
/// cell set to their count, and a clear null cell. A fresh descriptor is
/// live.
pub open spec fn spec_encoded_param(fv: FieldView) -> BindParamView {
    match spec_encode_bytes(fv) {
        None => BindParamView {
            buffer_type: TaosDataType::Null,
            buffer: None,
            length: None,
            is_null: true,
            live: true,
        },
        Some(b) => BindParamView {
            buffer_type: fv.tag(),
            buffer: Some(b),
            length: Some(b.len() as int),
            is_null: false,
            live: true,
        },
    }
}

impl BindParam {
    /// A fresh descriptor of the given kind with no cells allocated yet.
    pub fn new(buffer_type: TaosDataType) -> (r: BindParam)
        ensures
            r@ == (BindParamView {
                buffer_type,
                buffer: None,
                length: None,
                is_null: false,
                live: true,
            }),
    {
        BindParam { buffer_type, buffer: None, length: None, is_null: false, live: true }
    }

    /// The descriptor of a null bind: no value buffer, the null cell set.
    pub fn null() -> (r: BindParam)
        ensures
            r@ == spec_encoded_param(FieldView::Null),
    {
        BindParam {
            buffer_type: TaosDataType::Null,
            buffer: None,
            length: None,
            is_null: true,
            live: true,
        }
    }

    pub fn buffer_type(&self) -> (r: TaosDataType)
        ensures
            r == self@.buffer_type,
    {
        self.buffer_type
    }

    /// The owned value buffer, for lending to the engine's bind call.
    pub fn buffer(&self) -> (r: Option<&Vec<u8>>)
        ensures
            match r {
                Some(v) => self@.buffer == Some(v@),
                None => self@.buffer is None,
            },
    {
        match &self.buffer {
            Some(v) => Some(v),
            None => None,
        }
    }

    /// The length cell.
    pub fn length(&self) -> (r: Option<usize>)
        ensures
            match r {
                Some(l) => self@.length == Some(l as int),
                None => self@.length is None,
            },
    {
        self.length
    }

    /// The is-null cell.
    pub fn is_null(&self) -> (r: bool)
        ensures
            r == self@.is_null,
    {
        self.is_null
    }

    /// Whether this descriptor has not been released yet.
    pub fn is_live(&self) -> (r: bool)
        ensures
            r == self@.live,
    {
        self.live
    }

    /// Release this descriptor: its buffers are freed and it can never be
    /// released, nor lent out, again.
    pub fn release(&mut self)
        requires
            old(self)@.live,
        ensures
            final(self)@ == (BindParamView {
                buffer_type: old(self)@.buffer_type,
                buffer: None,
                length: None,
                is_null: old(self)@.is_null,
                live: false,
            }),
    {
        self.buffer = None;
        self.length = None;
        self.live = false;
    }

    /// Encode one field value into a fresh descriptor.
    pub fn from_field(f: &Field) -> (r: BindParam)
        ensures
            r@ == spec_encoded_param(f@),
    {
        match f {
            Field::Null => BindParam::null(),
            Field::Bool(v) => {
                let mut buf: Vec<u8> = Vec::new();
                buf.push(if *v {
                    1
                } else {
                    0
                });
                proof {
                    assert(buf@ =~= spec_encode_bytes(f@)->Some_0);
                }
                BindParam::with_buffer(TaosDataType::Bool, buf)
            },
            Field::TinyInt(v) => {
                let mut buf: Vec<u8> = Vec::new();
                buf.push(ints::i8_to_u8_bits(*v));
                proof {
                    assert(buf@ =~= spec_encode_bytes(f@)->Some_0);
                }
                BindParam::with_buffer(TaosDataType::TinyInt, buf)
            },
            Field::SmallInt(v) => BindParam::with_buffer(
                TaosDataType::SmallInt,
                u16_to_le_bytes(ints::i16_to_u16_bits(*v)),
            ),
            Field::Int(v) => BindParam::with_buffer(
                TaosDataType::Int,
                u32_to_le_bytes(ints::i32_to_u32_bits(*v)),
            ),
            Field::BigInt(v) => BindParam::with_buffer(
                TaosDataType::BigInt,
                u64_to_le_bytes(ints::i64_to_u64_bits(*v)),
            ),
            Field::Float(bits) => BindParam::with_buffer(TaosDataType::Float, u32_to_le_bytes(*bits)),
            Field::Double(bits) => BindParam::with_buffer(
                TaosDataType::Double,
                u64_to_le_bytes(*bits),
            ),
            Field::Binary(v) => {
                let mut buf: Vec<u8> = Vec::new();
                buf.extend_from_slice(v.as_slice());
                proof {
                    assert(buf@ =~= v@);
                }
                BindParam::with_buffer(TaosDataType::Binary, buf)
            },
            Field::Timestamp(t) => BindParam::with_buffer(
                TaosDataType::Timestamp,
                u64_to_le_bytes(ints::i64_to_u64_bits(t.as_raw_timestamp())),
            ),
            Field::NChar(v) => BindParam::with_buffer(
                TaosDataType::NChar,
                v.as_str().as_bytes_vec(),
            ),
            Field::UTinyInt(v) => {
                let mut buf: Vec<u8> = Vec::new();
                buf.push(*v);
                proof {
                    assert(buf@ =~= spec_encode_bytes(f@)->Some_0);
                }
                BindParam::with_buffer(TaosDataType::UTinyInt, buf)
            },
            Field::USmallInt(v) => BindParam::with_buffer(TaosDataType::USmallInt, u16_to_le_bytes(*v)),
            Field::UInt(v) => BindParam::with_buffer(TaosDataType::UInt, u32_to_le_bytes(*v)),
            Field::UBigInt(v) => BindParam::with_buffer(TaosDataType::UBigInt, u64_to_le_bytes(*v)),
            Field::Json(v) => BindParam::with_buffer(TaosDataType::Json, v.as_str().as_bytes_vec()),
        }
    }

    /// A live descriptor of the given kind owning the given value bytes,
    /// with the length cell set to their count.
    fn with_buffer(buffer_type: TaosDataType, buf: Vec<u8>) -> (r: BindParam)
        ensures
            r@ == (BindParamView {
                buffer_type,
                buffer: Some(buf@),
                length: Some(buf@.len() as int),
                is_null: false,
                live: true,
            }),
    {
        let len = buf.len();
        BindParam { buffer_type, buffer: Some(buf), length: Some(len), is_null: false, live: true }
    }
}

/// Conversion of an ergonomic source value into the buffer descriptor of
/// its kind, through the same encoding path as `Field` values.
pub trait IntoBindParam {
    /// The view of the field value this source encodes as.
    spec fn spec_bind_source(&self) -> FieldView;

    fn into_bind_param(self) -> (r: BindParam)
        ensures
            r@ == spec_encoded_param(self.spec_bind_source()),
    ;
}

impl IntoBindParam for &Field {
    open spec fn spec_bind_source(&self) -> FieldView {
        (*self)@
    }

    fn into_bind_param(self) -> (r: BindParam) {
        BindParam::from_field(self)
    }
}

impl IntoBindParam for bool {
    open spec fn spec_bind_source(&self) -> FieldView {
        FieldView::Bool(*self)
    }

    fn into_bind_param(self) -> (r: BindParam) {
        BindParam::from_field(&Field::Bool(self))
    }
}

impl IntoBindParam for i8 {
    open spec fn spec_bind_source(&self) -> FieldView {
        FieldView::TinyInt(*self)
    }

    fn into_bind_param(self) -> (r: BindParam) {
        BindParam::from_field(&Field::TinyInt(self))
    }
}

impl IntoBindParam for i16 {
    open spec fn spec_bind_source(&self) -> FieldView {
        FieldView::SmallInt(*self)
    }

    fn into_bind_param(self) -> (r: BindParam) {
        BindParam::from_field(&Field::SmallInt(self))
    }
}

impl IntoBindParam for i32 {
    open spec fn spec_bind_source(&self) -> FieldView {
        FieldView::Int(*self)
    }

    fn into_bind_param(self) -> (r: BindParam) {
        BindParam::from_field(&Field::Int(self))
    }
}

impl IntoBindParam for i64 {
    open spec fn spec_bind_source(&self) -> FieldView {
        FieldView::BigInt(*self)
    }

    fn into_bind_param(self) -> (r: BindParam) {
        BindParam::from_field(&Field::BigInt(self))
    }
}

impl IntoBindParam for u8 {
    open spec fn spec_bind_source(&self) -> FieldView {
        FieldView::UTinyInt(*self)
    }

    fn into_bind_param(self) -> (r: BindParam) {
        BindParam::from_field(&Field::UTinyInt(self))
    }
}

impl IntoBindParam for u16 {
    open spec fn spec_bind_source(&self) -> FieldView {
        FieldView::USmallInt(*self)
    }

    fn into_bind_param(self) -> (r: BindParam) {
        BindParam::from_field(&Field::USmallInt(self))
    }
}

impl IntoBindParam for u32 {
    open spec fn spec_bind_source(&self) -> FieldView {
        FieldView::UInt(*self)
    }

    fn into_bind_param(self) -> (r: BindParam) {
        BindParam::from_field(&Field::UInt(self))
    }
}

impl IntoBindParam for u64 {
    open spec fn spec_bind_source(&self) -> FieldView {
        FieldView::UBigInt(*self)
    }

    fn into_bind_param(self) -> (r: BindParam) {
        BindParam::from_field(&Field::UBigInt(self))
    }
}

impl IntoBindParam for &str {
    open spec fn spec_bind_source(&self) -> FieldView {
        FieldView::NChar(self@)
    }

    fn into_bind_param(self) -> (r: BindParam) {
        BindParam::with_buffer(TaosDataType::NChar, self.as_bytes_vec())
    }
}

impl IntoBindParam for &String {
    open spec fn spec_bind_source(&self) -> FieldView {
        FieldView::NChar((*self)@)
    }

    fn into_bind_param(self) -> (r: BindParam) {
        BindParam::with_buffer(TaosDataType::NChar, self.as_str().as_bytes_vec())
    }
}

impl IntoBindParam for &Vec<u8> {
    open spec fn spec_bind_source(&self) -> FieldView {
        FieldView::Binary((*self)@)
    }

    fn into_bind_param(self) -> (r: BindParam) {
        let mut buf: Vec<u8> = Vec::new();
        buf.extend_from_slice(self.as_slice());
        proof {
            assert(buf@ =~= (*self)@);
        }
        BindParam::with_buffer(TaosDataType::Binary, buf)
    }
}

impl IntoBindParam for &Timestamp {
    open spec fn spec_bind_source(&self) -> FieldView {
        FieldView::Timestamp(**self)
    }

    fn into_bind_param(self) -> (r: BindParam) {
        BindParam::from_field(&Field::Timestamp(*self))
    }
}

impl<T: IntoBindParam> IntoBindParam for Option<T> {
    open spec fn spec_bind_source(&self) -> FieldView {
        match self {
            Some(v) => v.spec_bind_source(),
            None => FieldView::Null,
        }
    }

    fn into_bind_param(self) -> (r: BindParam) {
        match self {
            Some(v) => v.into_bind_param(),
            None => BindParam::null(),
        }
    }
}

/// The allocation/free counting harness around the encoder: how many
/// descriptors have been allocated and how many released. Releases never
/// outnumber allocations, and whenever no descriptors are outstanding the
/// two counts agree — a double release would break the ledger.
#[derive(Debug, Clone, Copy, PartialEq, Eq, Structural)]
pub struct BufferLedger {
    pub allocated: u64,
    pub released: u64,
}

impl BufferLedger {
    /// Releases never outnumber allocations.
    pub open spec fn wf(self) -> bool {
        self.released <= self.allocated
    }

    /// Every allocated descriptor has been released.
    pub open spec fn balanced(self) -> bool {
        self.released == self.allocated
    }

    pub fn new() -> (r: BufferLedger)
        ensures
            r.allocated == 0,
            r.released == 0,
    {
        BufferLedger { allocated: 0, released: 0 }
    }
}

/// Encode a whole row of field values into fresh descriptors, counting the
/// allocations in the ledger.
pub fn encode_row(params: &Vec<Field>, ledger: &mut BufferLedger) -> (r: Vec<BindParam>)
    requires
        old(ledger).wf(),
        old(ledger).allocated + params@.len() < 0x10000000000000000,
    ensures
        r@.len() == params@.len(),
        forall|i: int|
            0 <= i < r@.len() ==> (#[trigger] r@[i])@ == spec_encoded_param(params@[i]@),
        final(ledger).allocated == old(ledger).allocated + params@.len(),
        final(ledger).released == old(ledger).released,
        final(ledger).wf(),
{
    let mut r: Vec<BindParam> = Vec::new();
    let mut i: usize = 0;
    while i < params.len()
        invariant
            i <= params@.len(),
            r@.len() == i,
            forall|j: int|
                0 <= j < i ==> (#[trigger] r@[j])@ == spec_encoded_param(params@[j]@),
            ledger.allocated == old(ledger).allocated + i,
            ledger.released == old(ledger).released,
            old(ledger).wf(),
            old(ledger).allocated + params@.len() < 0x10000000000000000,
        decreases params@.len() - i,
    {
        r.push(BindParam::from_field(&params[i]));
        ledger.allocated = ledger.allocated + 1;
        i = i + 1;
    }
    r
}

/// Release every descriptor of a row exactly once, counting the releases
/// in the ledger. Only a row of live descriptors can be released, so no
/// descriptor can go through this twice.
pub fn release_row(row: &mut Vec<BindParam>, ledger: &mut BufferLedger)
    requires
        forall|i: int| 0 <= i < old(row)@.len() ==> (#[trigger] old(row)@[i])@.live,
        old(ledger).wf(),
        old(ledger).released + old(row)@.len() <= old(ledger).allocated,
    ensures
        final(row)@.len() == old(row)@.len(),
        forall|i: int| 0 <= i < final(row)@.len() ==> !(#[trigger] final(row)@[i])@.live,
        final(ledger).allocated == old(ledger).allocated,
        final(ledger).released == old(ledger).released + old(row)@.len(),
        final(ledger).wf(),
{
    let mut i: usize = 0;
    while i < row.len()
        invariant
            i <= row@.len(),
            row@.len() == old(row)@.len(),
            forall|j: int| 0 <= j < i ==> !(#[trigger] row@[j])@.live,
            forall|j: int| i <= j < row@.len() ==> (#[trigger] row@[j])@.live,
            ledger.allocated == old(ledger).allocated,
            ledger.released == old(ledger).released + i,
            old(ledger).released + old(row)@.len() <= old(ledger).allocated,
        decreases row@.len() - i,
    {
        let p: &mut BindParam = &mut row[i];
        p.release();
        ledger.released = ledger.released + 1;
        i = i + 1;
    }
}

} // verus!
