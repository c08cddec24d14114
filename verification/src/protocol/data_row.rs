//! DataRow messages: a row of columns, each of them bytes or SQL NULL.

use crate::error::{ErrorView, PgWireError};
use crate::protocol::wire::{advance, be_i16, be_i32, get_i16, get_i32, i16_bytes, i32_bytes};
use crate::protocol::wire::{law_i16_read_back, law_i32_read_back};
use vstd::prelude::*;
use vstd::slice::slice_subrange;

verus! {

/// A column of a row: its bytes, or `None` for SQL NULL.
pub type ColumnView = Option<Seq<u8>>;

/// The first `count` columns of `b`, or `None` where `b` ends too early.
///
/// A column is a 32-bit length and that many bytes; a negative length stands for
/// SQL NULL and no bytes follow it.
pub open spec fn columns_of(count: int, b: Seq<u8>) -> Option<Seq<ColumnView>>
    decreases count,
{
    if count <= 0 {
        Some(seq![])
    } else if b.len() < 4 {
        None
    } else {
        let len = be_i32(b);
        let size = if len < 0 {
            0
        } else {
            len
        };
        let body = b.skip(4);
        if body.len() < size {
            None
        } else {
            let column = if len < 0 {
                None
            } else {
                Some(body.take(size))
            };
            match columns_of(count - 1, body.skip(size)) {
                Some(rest) => Some(seq![column] + rest),
                None => None,
            }
        }
    }
}

/// The columns of a DataRow payload, or `None` where the payload is truncated: a
/// 16-bit count, then the columns. Bytes behind the last column do not matter.
pub open spec fn data_row(payload: Seq<u8>) -> Option<Seq<ColumnView>> {
    if payload.len() < 2 {
        None
    } else {
        columns_of(be_i16(payload), payload.skip(2))
    }
}

/// A column as a slice of the payload, seen as a byte sequence.
pub open spec fn column_view(column: Option<&[u8]>) -> ColumnView {
    match column {
        Some(bytes) => Some(bytes@),
        None => None,
    }
}

/// Columns as slices of the payload, seen as byte sequences.
pub open spec fn column_views(columns: Seq<Option<&[u8]>>) -> Seq<ColumnView> {
    columns.map_values(|column: Option<&[u8]>| column_view(column))
}

/// The error for a payload that ends too early.
pub open spec fn truncated_row() -> ErrorView {
    ErrorView::Protocol("data row truncated"@)
}

fn truncated() -> (e: PgWireError)
    ensures
        e@ == truncated_row(),
{
    PgWireError::Protocol("data row truncated".to_owned())
}

/// Split a DataRow payload into its column values, `None` for SQL NULL.
pub fn parse_data_row(payload: &[u8]) -> (row: Result<Vec<Option<&[u8]>>, PgWireError>)
    ensures
        match row {
            Ok(columns) => data_row(payload@) == Some(column_views(columns@)),
            Err(e) => data_row(payload@) is None && e@ == truncated_row(),
        },
{
    let mut b = payload;
    if b.len() < 2 {
        return Err(truncated());
    }
    let count: i16 = get_i16(&mut b);
    let capacity: usize = if count > 0 {
        count as usize
    } else {
        0
    };
    let mut columns: Vec<Option<&[u8]>> = Vec::with_capacity(capacity);
    let mut left: i16 = count;
    assert(column_views(columns@) =~= seq![]);
    while left > 0
        invariant
            count >= 0 ==> left >= 0,
            match columns_of(left as int, b@) {
                Some(rest) => data_row(payload@) == Some(column_views(columns@) + rest),
                None => data_row(payload@) is None,
            },
        decreases left,
    {
        let ghost done = columns@;
        let ghost here = b@;
        if b.len() < 4 {
            return Err(truncated());
        }
        let len: i32 = get_i32(&mut b);
        left = left - 1;
        if len < 0 {
            columns.push(None);
            assert(b@.skip(0) =~= b@);
        } else {
            let size: usize = len as usize;
            if b.len() < size {
                return Err(truncated());
            }
            let value = slice_subrange(b, 0, size);
            assert(value@ =~= b@.take(size as int));
            columns.push(Some(value));
            advance(&mut b, size);
        }
        proof {
            let column = column_views(columns@).last();
            assert(column_views(columns@) =~= column_views(done) + seq![column]);
            if let Some(rest) = columns_of(left as int, b@) {
                assert(column_views(columns@) + rest =~= column_views(done) + (seq![column]
                    + rest));
            }
        }
    }
    assert(column_views(columns@) + seq![] =~= column_views(columns@));
    Ok(columns)
}

/// The bytes that carry one column.
pub open spec fn column_bytes(column: ColumnView) -> Seq<u8> {
    match column {
        Some(value) => i32_bytes(value.len() as int) + value,
        None => i32_bytes(-1),
    }
}

/// The bytes that carry the columns of a row, one behind the other.
pub open spec fn columns_bytes(columns: Seq<ColumnView>) -> Seq<u8>
    decreases columns.len(),
{
    if columns.len() == 0 {
        seq![]
    } else {
        column_bytes(columns[0]) + columns_bytes(columns.skip(1))
    }
}

/// The DataRow payload that carries `columns`.
pub open spec fn data_row_bytes(columns: Seq<ColumnView>) -> Seq<u8> {
    i16_bytes(columns.len() as int) + columns_bytes(columns)
}

/// A DataRow can carry `columns`: their number and their lengths fit.
pub open spec fn fits_data_row(columns: Seq<ColumnView>) -> bool {
    &&& columns.len() <= i16::MAX
    &&& forall|i: int|
        0 <= i < columns.len() ==> (#[trigger] columns[i] matches Some(value) ==> value.len()
            <= i32::MAX)
}

/// A row is read back from the payload that carries it: every column, NULL apart
/// from empty, in order, whatever bytes follow.
pub proof fn law_row_read_back(columns: Seq<ColumnView>, tail: Seq<u8>)
    requires
        fits_data_row(columns),
    ensures
        data_row(data_row_bytes(columns) + tail) == Some(columns),
{
    let payload = data_row_bytes(columns) + tail;
    law_i16_read_back(columns.len() as int, columns_bytes(columns) + tail);
    assert(payload =~= i16_bytes(columns.len() as int) + (columns_bytes(columns) + tail));
    assert(payload.skip(2) =~= columns_bytes(columns) + tail);
    lemma_columns_read_back(columns, tail);
}

proof fn lemma_columns_read_back(columns: Seq<ColumnView>, tail: Seq<u8>)
    requires
        fits_data_row(columns),
    ensures
        columns_of(columns.len() as int, columns_bytes(columns) + tail) == Some(columns),
    decreases columns.len(),
{
    if columns.len() > 0 {
        let rest = columns.skip(1);
        let after = columns_bytes(rest) + tail;
        let b = columns_bytes(columns) + tail;
        assert(forall|i: int| 0 <= i < rest.len() ==> rest[i] == columns[i + 1]);
        lemma_columns_read_back(rest, tail);
        match columns[0] {
            Some(value) => {
                let len = value.len() as int;
                assert(b =~= i32_bytes(len) + (value + after));
                law_i32_read_back(len, value + after);
                assert(b.skip(4) =~= value + after);
                assert((value + after).take(len) =~= value);
                assert((value + after).skip(len) =~= after);
            },
            None => {
                assert(b =~= i32_bytes(-1) + after);
                law_i32_read_back(-1, after);
                assert(b.skip(4) =~= after);
                assert(after.skip(0) =~= after);
            },
        }
        assert(seq![columns[0]] + rest =~= columns);
    } else {
        assert(columns =~= seq![]);
    }
}

/// A payload that lost any number of bytes at its end is refused.
pub proof fn law_truncated_row_refused(columns: Seq<ColumnView>, kept: int)
    requires
        fits_data_row(columns),
        0 <= kept < data_row_bytes(columns).len(),
    ensures
        data_row(data_row_bytes(columns).take(kept)) is None,
{
    if kept >= 2 {
        let payload = data_row_bytes(columns).take(kept);
        let kept_columns = columns_bytes(columns).take(kept - 2);
        assert(payload =~= i16_bytes(columns.len() as int) + kept_columns);
        law_i16_read_back(columns.len() as int, kept_columns);
        assert(payload.skip(2) =~= kept_columns);
        lemma_truncated_columns_refused(columns, kept - 2);
    }
}

proof fn lemma_truncated_columns_refused(columns: Seq<ColumnView>, kept: int)
    requires
        fits_data_row(columns),
        0 <= kept < columns_bytes(columns).len(),
    ensures
        columns_of(columns.len() as int, columns_bytes(columns).take(kept)) is None,
    decreases columns.len(),
{
    let b = columns_bytes(columns).take(kept);
    if kept >= 4 {
        let rest = columns.skip(1);
        assert(forall|i: int| 0 <= i < rest.len() ==> rest[i] == columns[i + 1]);
        match columns[0] {
            Some(value) => {
                let len = value.len() as int;
                let body = (value + columns_bytes(rest)).take(kept - 4);
                assert(b =~= i32_bytes(len) + body);
                law_i32_read_back(len, body);
                assert(b.skip(4) =~= body);
                if kept - 4 >= len {
                    let kept_rest = kept - 4 - len;
                    assert(body.skip(len) =~= columns_bytes(rest).take(kept_rest));
                    lemma_truncated_columns_refused(rest, kept_rest);
                }
            },
            None => {
                let body = columns_bytes(rest).take(kept - 4);
                assert(b =~= i32_bytes(-1) + body);
                law_i32_read_back(-1, body);
                assert(b.skip(4) =~= body);
                assert(body.skip(0) =~= body);
                lemma_truncated_columns_refused(rest, kept - 4);
            },
        }
    }
}

/// Bytes behind a whole row change nothing.
pub proof fn law_bytes_behind_row_ignored(payload: Seq<u8>, tail: Seq<u8>)
    requires
        data_row(payload) is Some,
    ensures
        data_row(payload + tail) == data_row(payload),
{
    assert((payload + tail).skip(2) =~= payload.skip(2) + tail);
    lemma_bytes_behind_columns_ignored(be_i16(payload), payload.skip(2), tail);
}

proof fn lemma_bytes_behind_columns_ignored(count: int, b: Seq<u8>, tail: Seq<u8>)
    requires
        columns_of(count, b) is Some,
    ensures
        columns_of(count, b + tail) == columns_of(count, b),
    decreases count,
{
    if count > 0 {
        let len = be_i32(b);
        let size = if len < 0 {
            0
        } else {
            len
        };
        let body = b.skip(4);
        assert((b + tail).skip(4) =~= body + tail);
        assert((body + tail).take(size) =~= body.take(size));
        assert((body + tail).skip(size) =~= body.skip(size) + tail);
        lemma_bytes_behind_columns_ignored(count - 1, body.skip(size), tail);
    }
}

/// A row that is read has as many columns as its payload announces; a negative
/// number announces none.
pub proof fn law_row_has_announced_columns(payload: Seq<u8>)
    ensures
        data_row(payload) matches Some(columns) ==> columns.len() == if be_i16(payload) < 0 {
            0
        } else {
            be_i16(payload)
        },
{
    if payload.len() >= 2 {
        lemma_column_count(be_i16(payload), payload.skip(2));
    }
}

proof fn lemma_column_count(count: int, b: Seq<u8>)
    ensures
        columns_of(count, b) matches Some(columns) ==> columns.len() == if count < 0 {
            0
        } else {
            count
        },
    decreases count,
{
    if count > 0 && b.len() >= 4 {
        let len = be_i32(b);
        let size = if len < 0 {
            0
        } else {
            len
        };
        lemma_column_count(count - 1, b.skip(4).skip(size));
    }
}

} // verus!
