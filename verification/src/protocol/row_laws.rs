//! What holds of DataRow and AuthenticationRequest messages, whatever bytes come.

use crate::error::PgWireError;
use crate::protocol::data_row::{column_views, columns_of, parse_data_row, ColumnView};
use crate::protocol::messages::parse_auth_request;
use crate::protocol::wire::{be_i16, be_i32, i16_bytes, i32_bytes, law_four_bytes_are_an_i32};
use crate::protocol::wire::{law_i16_read_back, law_i32_read_back, law_two_bytes_are_an_i16};
use vstd::prelude::*;
use vstd::string::*;

verus! {

/// A column as it is sent: the length that is announced, and the bytes behind it.
pub type CellView = (int, Seq<u8>);

/// The announced length is that of the bytes; a negative one, whichever it is,
/// announces that no bytes follow.
pub open spec fn is_cell(cell: CellView) -> bool {
    &&& i32::MIN <= cell.0 <= i32::MAX
    &&& cell.0 >= 0 ==> cell.1.len() == cell.0
    &&& cell.0 < 0 ==> cell.1.len() == 0
}

/// Cells as they are sent, one behind the other.
pub open spec fn cells_bytes(cells: Seq<CellView>) -> Seq<u8>
    decreases cells.len(),
{
    if cells.len() == 0 {
        seq![]
    } else {
        i32_bytes(cells[0].0) + cells[0].1 + cells_bytes(cells.skip(1))
    }
}

/// `payload` announces `count` columns, starts with these cells, and has as many of
/// them as it announces; a negative count announces none.
pub open spec fn sends_row(
    payload: Seq<u8>,
    count: int,
    cells: Seq<CellView>,
    tail: Seq<u8>,
) -> bool {
    &&& i16::MIN <= count <= i16::MAX
    &&& cells.len() == if count < 0 {
        0
    } else {
        count
    }
    &&& forall|i: int| 0 <= i < cells.len() ==> is_cell(#[trigger] cells[i])
    &&& payload == i16_bytes(count) + cells_bytes(cells) + tail
}

/// What a cell says: its bytes, or `None` for SQL NULL.
spec fn cell_column(cell: CellView) -> ColumnView {
    if cell.0 < 0 {
        None
    } else {
        Some(cell.1)
    }
}

proof fn lemma_cells_read(cells: Seq<CellView>, tail: Seq<u8>)
    requires
        forall|i: int| 0 <= i < cells.len() ==> is_cell(#[trigger] cells[i]),
    ensures
        columns_of(cells.len() as int, cells_bytes(cells) + tail) == Some(
            cells.map_values(|cell: CellView| cell_column(cell)),
        ),
    decreases cells.len(),
{
    let columns = cells.map_values(|cell: CellView| cell_column(cell));
    if cells.len() > 0 {
        let rest = cells.skip(1);
        let (len, value) = cells[0];
        let after = cells_bytes(rest) + tail;
        let b = cells_bytes(cells) + tail;
        assert(is_cell(cells[0]));
        assert(forall|i: int| 0 <= i < rest.len() ==> rest[i] == cells[i + 1]);
        lemma_cells_read(rest, tail);
        assert(b =~= i32_bytes(len) + (value + after));
        law_i32_read_back(len, value + after);
        assert(b.skip(4) =~= value + after);
        assert((value + after).take(value.len() as int) =~= value);
        assert((value + after).skip(value.len() as int) =~= after);
        assert(columns =~= seq![cell_column(cells[0])] + rest.map_values(
            |cell: CellView| cell_column(cell),
        ));
    } else {
        assert(columns =~= seq![]);
    }
}

/// A row that was sent whole is read, whatever its columns are and whatever follows
/// it: as many columns as there are cells, each of them NULL where its length is
/// negative and otherwise the bytes of its cell, all of them.
pub proof fn law_sent_row_is_read(
    payload: &[u8],
    row: Result<Vec<Option<&[u8]>>, PgWireError>,
    count: int,
    cells: Seq<CellView>,
    tail: Seq<u8>,
)
    requires
        call_ensures(parse_data_row, (payload,), row),
        sends_row(payload@, count, cells, tail),
    ensures
        row is Ok,
        row->Ok_0@.len() == cells.len(),
        forall|i: int|
            0 <= i < cells.len() ==> (#[trigger] row->Ok_0@[i] is None <==> cells[i].0 < 0),
        forall|i: int|
            0 <= i < cells.len() ==> (#[trigger] row->Ok_0@[i] matches Some(bytes) ==> bytes@
                == cells[i].1),
{
    law_i16_read_back(count, cells_bytes(cells) + tail);
    assert(payload@ =~= i16_bytes(count) + (cells_bytes(cells) + tail));
    assert(payload@.skip(2) =~= cells_bytes(cells) + tail);
    lemma_cells_read(cells, tail);
    if count < 0 {
        assert(columns_of(count, payload@.skip(2)) == Some(Seq::<ColumnView>::empty()));
        assert(columns_of(0, payload@.skip(2)) == Some(Seq::<ColumnView>::empty()));
    }
    let columns = cells.map_values(|cell: CellView| cell_column(cell));
    let views = column_views(row->Ok_0@);
    assert(views == columns);
    assert forall|i: int| 0 <= i < cells.len() implies (#[trigger] row->Ok_0@[i] is None
        <==> cells[i].0 < 0) && (row->Ok_0@[i] matches Some(bytes) ==> bytes@ == cells[i].1) by {
        assert(views[i] == columns[i]);
    }
}

proof fn lemma_columns_were_sent(count: int, b: Seq<u8>) -> (parts: (Seq<CellView>, Seq<u8>))
    requires
        columns_of(count, b) is Some,
    ensures
        parts.0.len() == if count < 0 {
            0
        } else {
            count
        },
        forall|i: int| 0 <= i < parts.0.len() ==> is_cell(#[trigger] parts.0[i]),
        b == cells_bytes(parts.0) + parts.1,
    decreases count,
{
    if count <= 0 {
        assert(cells_bytes(seq![]) + b =~= b);
        (seq![], b)
    } else {
        let len = be_i32(b);
        let size = if len < 0 {
            0
        } else {
            len
        };
        let body = b.skip(4);
        let (others, tail) = lemma_columns_were_sent(count - 1, body.skip(size));
        let cell = (len, body.take(size));
        let cells = seq![cell] + others;
        assert(cells.skip(1) =~= others);
        assert(forall|i: int| 0 < i < cells.len() ==> cells[i] == others[i - 1]);
        law_four_bytes_are_an_i32(b.take(4));
        assert(be_i32(b.take(4)) == len);
        assert(body =~= body.take(size) + body.skip(size));
        assert(b =~= b.take(4) + body);
        assert(b =~= cells_bytes(cells) + tail);
        (cells, tail)
    }
}

/// A row is read only where it was sent whole: from every payload that is read, the
/// cells can be told that it was made of. Every other payload is refused as
/// truncated.
pub proof fn law_read_row_was_sent(
    payload: &[u8],
    row: Result<Vec<Option<&[u8]>>, PgWireError>,
) -> (parts: (int, Seq<CellView>, Seq<u8>))
    requires
        call_ensures(parse_data_row, (payload,), row),
    ensures
        row is Ok ==> sends_row(payload@, parts.0, parts.1, parts.2),
        row matches Err(e) ==> (e matches PgWireError::Protocol(text) && text@
            == "data row truncated"@),
{
    if row is Ok {
        let count = be_i16(payload@);
        let b = payload@.skip(2);
        let (cells, tail) = lemma_columns_were_sent(count, b);
        law_two_bytes_are_an_i16(payload@.take(2));
        assert(be_i16(payload@.take(2)) == count);
        assert(payload@ =~= payload@.take(2) + b);
        assert(payload@ =~= i16_bytes(count) + cells_bytes(cells) + tail);
        (count, cells, tail)
    } else {
        (0, seq![], seq![])
    }
}

/// Cutting a payload anywhere, or putting bytes behind it, changes no column that
/// is read: where a payload and its beginning are both read, they are read alike.
pub proof fn law_beginning_is_read_alike(
    payload: &[u8],
    beginning: &[u8],
    row: Result<Vec<Option<&[u8]>>, PgWireError>,
    short: Result<Vec<Option<&[u8]>>, PgWireError>,
    kept: int,
)
    requires
        call_ensures(parse_data_row, (payload,), row),
        call_ensures(parse_data_row, (beginning,), short),
        0 <= kept <= payload@.len(),
        beginning@ == payload@.take(kept),
        short is Ok,
    ensures
        row is Ok,
        column_views(row->Ok_0@) == column_views(short->Ok_0@),
{
    let (count, cells, tail) = law_read_row_was_sent(beginning, short);
    let longer = tail + payload@.skip(kept);
    assert(payload@ =~= beginning@ + payload@.skip(kept));
    assert(payload@ =~= i16_bytes(count) + cells_bytes(cells) + longer);
    law_sent_row_is_read(beginning, short, count, cells, tail);
    law_sent_row_is_read(payload, row, count, cells, longer);
    let a = column_views(row->Ok_0@);
    let b = column_views(short->Ok_0@);
    assert forall|i: int| 0 <= i < a.len() implies a[i] == b[i] by {
        assert(row->Ok_0@[i] is None <==> cells[i].0 < 0);
        assert(short->Ok_0@[i] is None <==> cells[i].0 < 0);
    }
    assert(a =~= b);
}

/// An authentication request of four bytes or more is always read, into the integer
/// whose bytes it starts with and exactly the bytes behind those; a shorter one is
/// always refused.
pub proof fn law_auth_request_is_code_and_data(
    payload: &[u8],
    request: Result<(i32, &[u8]), PgWireError>,
)
    requires
        call_ensures(parse_auth_request, (payload,), request),
    ensures
        request is Ok <==> payload@.len() >= 4,
        request matches Ok((code, data)) ==> payload@ == i32_bytes(code as int) + data@,
        request matches Err(e) ==> (e matches PgWireError::Protocol(text) && text@
            == "auth request too short"@),
{
    if payload@.len() >= 4 {
        law_four_bytes_are_an_i32(payload@.take(4));
        assert(be_i32(payload@.take(4)) == be_i32(payload@));
        assert(payload@ =~= payload@.take(4) + payload@.skip(4));
    }
}

/// Two requests with the same data and any codes give the same data, and two with
/// the same code and any data give the same code.
pub proof fn law_auth_code_and_data_are_apart(
    one: &[u8],
    two: &[u8],
    request: Result<(i32, &[u8]), PgWireError>,
    other: Result<(i32, &[u8]), PgWireError>,
)
    requires
        call_ensures(parse_auth_request, (one,), request),
        call_ensures(parse_auth_request, (two,), other),
        one@.len() >= 4,
        two@.len() >= 4,
    ensures
        request is Ok && other is Ok,
        one@.take(4) == two@.take(4) <==> request->Ok_0.0 == other->Ok_0.0,
        one@.skip(4) == two@.skip(4) <==> request->Ok_0.1@ == other->Ok_0.1@,
{
    law_auth_request_is_code_and_data(one, request);
    law_auth_request_is_code_and_data(two, other);
    assert(one@.take(4) =~= i32_bytes(request->Ok_0.0 as int));
    assert(two@.take(4) =~= i32_bytes(other->Ok_0.0 as int));
    assert(one@.skip(4) =~= request->Ok_0.1@);
    assert(two@.skip(4) =~= other->Ok_0.1@);
    law_i32_read_back(request->Ok_0.0 as int, seq![]);
    law_i32_read_back(other->Ok_0.0 as int, seq![]);
}

} // verus!
