//! Query results: column metadata, the materialized table of decoded rows,
//! and the table-description view derived from a `describe` result.

use vstd::prelude::*;

verus! {

use vstd::string::StringSliceAdditionalSpecFns;
use vstd::utf8::encode_utf8;
use crate::field::{Field, FieldView, TaosDataType};
use crate::text::{spec_lossy, spec_lower_bytes};
use crate::text;

/// The mathematical shape of one column's metadata.
pub struct ColumnMetaView {
    pub name: Seq<char>,
    pub type_: TaosDataType,
    pub bytes: int,
}

/// Name, data kind and declared byte width of one result column. The width
/// is the fixed size for scalar kinds and the declared capacity for the
/// variable-width kinds.
#[derive(Debug, Clone)]
pub struct ColumnMeta {
    pub name: String,
    pub type_: TaosDataType,
    pub bytes: i16,
}

impl View for ColumnMeta {
    type V = ColumnMetaView;

    open spec fn view(&self) -> ColumnMetaView {
        ColumnMetaView { name: self.name@, type_: self.type_, bytes: self.bytes as int }
    }
}

/// The mathematical shape of a query result.
pub struct QueryDataView {
    pub column_meta: Seq<ColumnMetaView>,
    pub rows: Seq<Seq<FieldView>>,
}

/// A fully materialized query result: the column metadata, read once, and
/// the decoded rows. Every row holds exactly one field per column, in
/// column order.
#[derive(Debug)]
pub struct TaosQueryData {
    pub column_meta: Vec<ColumnMeta>,
    pub rows: Vec<Vec<Field>>,
}

impl View for TaosQueryData {
    type V = QueryDataView;

    open spec fn view(&self) -> QueryDataView {
        QueryDataView {
            column_meta: self.column_meta@.map_values(|m: ColumnMeta| m@),
            rows: self.rows@.map_values(|r: Vec<Field>| r@.map_values(|f: Field| f@)),
        }
    }
}

impl TaosQueryData {
    /// A result table over the given columns with no rows yet: the decoder
    /// reads the metadata exactly once and starts from an empty row
    /// sequence, so a zero-row result is exactly this.
    pub fn new(column_meta: Vec<ColumnMeta>) -> (r: TaosQueryData)
        ensures
            r@.column_meta == column_meta@.map_values(|m: ColumnMeta| m@),
            r@.rows == Seq::<Seq<FieldView>>::empty(),
            r.wf(),
    {
        let r = TaosQueryData { column_meta, rows: Vec::new() };
        proof {
            assert(r@.rows =~= Seq::<Seq<FieldView>>::empty());
        }
        r
    }

    /// Append one decoded row; it must hold exactly one field per column.
    pub fn push_row(&mut self, row: Vec<Field>)
        requires
            old(self).wf(),
            row@.len() == old(self)@.column_meta.len(),
        ensures
            final(self)@.column_meta == old(self)@.column_meta,
            final(self)@.rows == old(self)@.rows.push(row@.map_values(|f: Field| f@)),
            final(self).wf(),
    {
        self.rows.push(row);
        proof {
            assert(self@.rows =~= old(self)@.rows.push(self.rows@[self.rows@.len() - 1]@.map_values(
                |f: Field| f@,
            )));
        }
    }

    /// Every row has exactly one field per column.
    pub open spec fn wf(self) -> bool {
        forall|i: int|
            0 <= i < self@.rows.len() ==> (#[trigger] self@.rows[i]).len()
                == self@.column_meta.len()
    }

    /// Total count of rows in this result.
    pub fn rows(&self) -> (r: usize)
        ensures
            r == self@.rows.len(),
    {
        self.rows.len()
    }
}

/// The text a describe cell carries: lenient decoding for `Binary`, the
/// text itself for `NChar`. Meaningless for other variants.
pub open spec fn spec_cell_text(fv: FieldView) -> Seq<char> {
    match fv {
        FieldView::Binary(b) => spec_lossy(b),
        FieldView::NChar(c) => c,
        _ => Seq::empty(),
    }
}

/// Whether a describe row describes a tag column: its fourth cell is the
/// byte text `TAG`.
pub open spec fn spec_is_tag_row(row: Seq<FieldView>) -> bool {
    row.len() > 3 && (row[3] matches FieldView::Binary(b) && b == "TAG".spec_bytes())
}

/// The column metadata a describe row carries: name, parsed type name, and
/// declared width.
pub open spec fn spec_meta_of_row(row: Seq<FieldView>) -> ColumnMetaView {
    ColumnMetaView {
        name: spec_cell_text(row[0]),
        type_: TaosDataType::spec_from_name_bytes(
            spec_lower_bytes(encode_utf8(spec_cell_text(row[1]))),
        )->Some_0,
        bytes: row[2]->Int_0 as int,
    }
}

/// A describe row this library can read: name and type cells are text,
/// the type cell names a known data type, and the width cell is a plain
/// integer in the declared range.
pub open spec fn spec_describe_row_wf(row: Seq<FieldView>) -> bool {
    &&& row.len() >= 4
    &&& (row[0] is Binary || row[0] is NChar)
    &&& (row[1] is Binary || row[1] is NChar)
    &&& TaosDataType::spec_from_name_bytes(spec_lower_bytes(encode_utf8(spec_cell_text(row[1]))))
        is Some
    &&& row[2] matches FieldView::Int(w) && -0x8000 <= w < 0x8000
}

/// The mathematical shape of a table description.
pub struct DescribeView {
    pub cols: Seq<ColumnMetaView>,
    pub tags: Seq<ColumnMetaView>,
}

/// A table description: the data columns and the tag columns, in the order
/// the engine reported them.
#[derive(Debug)]
pub struct TaosDescribe {
    pub cols: Vec<ColumnMeta>,
    pub tags: Vec<ColumnMeta>,
}

impl View for TaosDescribe {
    type V = DescribeView;

    open spec fn view(&self) -> DescribeView {
        DescribeView {
            cols: self.cols@.map_values(|m: ColumnMeta| m@),
            tags: self.tags@.map_values(|m: ColumnMeta| m@),
        }
    }
}

/// `Seq::filter` distributes over `push`.
proof fn lemma_filter_push<A>(s: Seq<A>, x: A, p: spec_fn(A) -> bool)
    ensures
        s.push(x).filter(p) == if p(x) {
            s.filter(p).push(x)
        } else {
            s.filter(p)
        },
{
    reveal(Seq::filter);
    assert(s.push(x).drop_last() =~= s);
    assert(s.push(x).last() == x);
}

impl TaosDescribe {
    /// Split the rows of a `describe` query result into data columns and
    /// tag columns, keeping their order: a row whose fourth cell is the
    /// byte text `TAG` describes a tag column, every other row a data
    /// column.
    pub fn from_query_data(data: &TaosQueryData) -> (r: TaosDescribe)
        requires
            forall|i: int|
                0 <= i < data@.rows.len() ==> spec_describe_row_wf(#[trigger] data@.rows[i]),
        ensures
            r@.cols == data@.rows.filter(|row: Seq<FieldView>| !spec_is_tag_row(row)).map_values(
                |row: Seq<FieldView>| spec_meta_of_row(row),
            ),
            r@.tags == data@.rows.filter(|row: Seq<FieldView>| spec_is_tag_row(row)).map_values(
                |row: Seq<FieldView>| spec_meta_of_row(row),
            ),
    {
        let mut cols: Vec<ColumnMeta> = Vec::new();
        let mut tags: Vec<ColumnMeta> = Vec::new();
        let ghost rows_v = data@.rows;
        let mut i: usize = 0;
        proof {
            assert(rows_v.take(0) =~= Seq::<Seq<FieldView>>::empty());
            reveal(Seq::filter);
        }
        while i < data.rows.len()
            invariant
                i <= data.rows@.len(),
                rows_v == data@.rows,
                rows_v.len() == data.rows@.len(),
                forall|j: int| 0 <= j < rows_v.len() ==> spec_describe_row_wf(#[trigger] rows_v[j]),
                cols@.map_values(|m: ColumnMeta| m@) == rows_v.take(i as int).filter(
                    |row: Seq<FieldView>| !spec_is_tag_row(row),
                ).map_values(|row: Seq<FieldView>| spec_meta_of_row(row)),
                tags@.map_values(|m: ColumnMeta| m@) == rows_v.take(i as int).filter(
                    |row: Seq<FieldView>| spec_is_tag_row(row),
                ).map_values(|row: Seq<FieldView>| spec_meta_of_row(row)),
            decreases data.rows@.len() - i,
        {
            let row: &Vec<Field> = &data.rows[i];
            let ghost row_v = rows_v[i as int];
            proof {
                assert(row_v == row@.map_values(|f: Field| f@));
                assert(spec_describe_row_wf(row_v));
                assert(row@.len() == row_v.len());
            }
            let name = match row[0].as_string() {
                Some(n) => n,
                None => {
                    proof {
                        assert(row@[0]@ == row_v[0]);
                        assert(false);
                    }
                    unreached()
                },
            };
            let type_text = match row[1].as_string() {
                Some(n) => n,
                None => {
                    proof {
                        assert(row@[1]@ == row_v[1]);
                        assert(false);
                    }
                    unreached()
                },
            };
            let type_ = match TaosDataType::from_type_name(type_text.as_str()) {
                Ok(t) => t,
                Err(_) => {
                    proof {
                        assert(row@[1]@ == row_v[1]);
                        assert(false);
                    }
                    unreached()
                },
            };
            let width: i16 = match &row[2] {
                Field::Int(w) => {
                    proof {
                        assert(row@[2]@ == row_v[2]);
                    }
                    *w as i16
                },
                _ => {
                    proof {
                        assert(row@[2]@ == row_v[2]);
                        assert(false);
                    }
                    unreached()
                },
            };
            let meta = ColumnMeta { name, type_, bytes: width };
            proof {
                assert(row@[0]@ == row_v[0]);
                assert(row@[1]@ == row_v[1]);
                assert(meta@ == spec_meta_of_row(row_v));
            }
            let is_tag = match &row[3] {
                Field::Binary(v) => text::bytes_eq_str(v, "TAG"),
                _ => false,
            };
            proof {
                assert(row@[3]@ == row_v[3]);
                assert(is_tag == spec_is_tag_row(row_v));
            }
            let ghost pre_cols = cols@;
            let ghost pre_tags = tags@;
            if is_tag {
                tags.push(meta);
            } else {
                cols.push(meta);
            }
            proof {
                let p_tag = |row: Seq<FieldView>| spec_is_tag_row(row);
                let p_col = |row: Seq<FieldView>| !spec_is_tag_row(row);
                let to_meta = |row: Seq<FieldView>| spec_meta_of_row(row);
                let meta_view = |m: ColumnMeta| m@;
                assert(rows_v.take(i + 1) =~= rows_v.take(i as int).push(row_v));
                lemma_filter_push(rows_v.take(i as int), row_v, p_tag);
                lemma_filter_push(rows_v.take(i as int), row_v, p_col);
                if is_tag {
                    assert(tags@.map_values(meta_view) =~= pre_tags.map_values(meta_view).push(
                        meta@,
                    ));
                    assert(rows_v.take(i + 1).filter(p_tag).map_values(to_meta) =~= rows_v.take(
                        i as int,
                    ).filter(p_tag).map_values(to_meta).push(spec_meta_of_row(row_v)));
                } else {
                    assert(cols@.map_values(meta_view) =~= pre_cols.map_values(meta_view).push(
                        meta@,
                    ));
                    assert(rows_v.take(i + 1).filter(p_col).map_values(to_meta) =~= rows_v.take(
                        i as int,
                    ).filter(p_col).map_values(to_meta).push(spec_meta_of_row(row_v)));
                }
            }
            i = i + 1;
        }
        proof {
            assert(rows_v.take(rows_v.len() as int) =~= rows_v);
        }
        TaosDescribe { cols, tags }
    }

    /// The names of all columns, data columns first, then tag columns.
    pub fn names(&self) -> (r: Vec<String>)
        ensures
            r@.map_values(|s: String| s@) == self@.cols.map_values(|m: ColumnMetaView| m.name)
                + self@.tags.map_values(|m: ColumnMetaView| m.name),
    {
        let mut r: Vec<String> = Vec::new();
        append_names(&mut r, &self.cols);
        append_names(&mut r, &self.tags);
        proof {
            assert(r@.map_values(|s: String| s@) =~= self@.cols.map_values(
                |m: ColumnMetaView| m.name,
            ) + self@.tags.map_values(|m: ColumnMetaView| m.name));
        }
        r
    }

    /// The names of the data columns, in order.
    pub fn col_names(&self) -> (r: Vec<String>)
        ensures
            r@.map_values(|s: String| s@) == self@.cols.map_values(|m: ColumnMetaView| m.name),
    {
        let mut r: Vec<String> = Vec::new();
        append_names(&mut r, &self.cols);
        proof {
            assert(r@.map_values(|s: String| s@) =~= self@.cols.map_values(
                |m: ColumnMetaView| m.name,
            ));
        }
        r
    }

    /// The names of the tag columns, in order.
    pub fn tag_names(&self) -> (r: Vec<String>)
        ensures
            r@.map_values(|s: String| s@) == self@.tags.map_values(|m: ColumnMetaView| m.name),
    {
        let mut r: Vec<String> = Vec::new();
        append_names(&mut r, &self.tags);
        proof {
            assert(r@.map_values(|s: String| s@) =~= self@.tags.map_values(
                |m: ColumnMetaView| m.name,
            ));
        }
        r
    }
}

/// Append the column names of `src` to `dst`, in order.
fn append_names(dst: &mut Vec<String>, src: &Vec<ColumnMeta>)
    ensures
        final(dst)@.len() == old(dst)@.len() + src@.len(),
        forall|k: int| 0 <= k < old(dst)@.len() ==> final(dst)@[k] == old(dst)@[k],
        forall|k: int|
            old(dst)@.len() <= k < final(dst)@.len() ==> (#[trigger] final(dst)@[k])@ == src@[k
                - old(dst)@.len()].name@,
{
    let mut i: usize = 0;
    let ghost base = dst@;
    while i < src.len()
        invariant
            i <= src@.len(),
            dst@.len() == base.len() + i,
            forall|k: int| 0 <= k < base.len() ==> dst@[k] == base[k],
            forall|k: int|
                base.len() <= k < dst@.len() ==> (#[trigger] dst@[k])@ == src@[k
                    - base.len()].name@,
        decreases src@.len() - i,
    {
        dst.push(src[i].name.clone());
        i = i + 1;
    }
}

} // verus!
