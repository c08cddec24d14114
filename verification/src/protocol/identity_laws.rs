//! What holds of `IDENTIFY_SYSTEM` responses, whatever the row says.

use crate::error::PgWireError;
use crate::lsn::Lsn;
use crate::protocol::data_row::{column_view, column_views, parse_data_row};
use crate::protocol::messages::{checked_timeline, ServerIdentity};
use crate::text::{decimal, decimal_u32, parse_u32_complaint};
use vstd::prelude::*;
use vstd::string::*;
use vstd::utf8::{decode_utf8, decode_utf8_encode_utf8, encode_utf8, encode_utf8_decode_utf8};
use vstd::utf8::valid_utf8;

verus! {

/// The column holds text.
pub open spec fn holds_text(column: Option<&[u8]>) -> bool {
    column matches Some(bytes) && valid_utf8(bytes@)
}

/// The column holds text, and `text` is that text.
pub open spec fn is_column_text(column: Option<&[u8]>, text: Seq<char>) -> bool {
    column matches Some(bytes) && bytes@ == encode_utf8(text)
}

/// The result is an error of the protocol that says `text`.
pub open spec fn complains<T>(result: Result<T, PgWireError>, text: Seq<char>) -> bool {
    result matches Err(PgWireError::Protocol(own)) && own@ == text
}

/// A row that cannot be read is refused with the error that it cannot be read with.
pub proof fn law_identity_needs_a_row(
    payload: &[u8],
    row: Result<Vec<Option<&[u8]>>, PgWireError>,
    identity: Result<ServerIdentity, PgWireError>,
)
    requires
        call_ensures(parse_data_row, (payload,), row),
        call_ensures(ServerIdentity::from_data_row, (payload,), identity),
    ensures
        row is Err ==> complains(row, "data row truncated"@) && complains(
            identity,
            "data row truncated"@,
        ),
{
}

/// An identity is what the four columns say, each of them the whole of its column:
/// the system identifier, the timeline in decimal, the position as it is parsed, and
/// the database name, which is missing exactly where its column is NULL.
pub proof fn law_identity_says_what_the_columns_say(
    payload: &[u8],
    row: Result<Vec<Option<&[u8]>>, PgWireError>,
    identity: Result<ServerIdentity, PgWireError>,
    position: &str,
    lsn: Result<Lsn, PgWireError>,
    timeline: Seq<char>,
)
    requires
        call_ensures(parse_data_row, (payload,), row),
        call_ensures(ServerIdentity::from_data_row, (payload,), identity),
        call_ensures(Lsn::parse, (position,), lsn),
        identity is Ok,
        row is Ok && row->Ok_0@.len() == 4 ==> is_column_text(row->Ok_0@[2], position@)
            && is_column_text(row->Ok_0@[1], timeline),
    ensures
        row is Ok,
        row->Ok_0@.len() == 4,
        is_column_text(row->Ok_0@[0], identity->Ok_0.system_id@),
        decimal_u32(timeline) == Some(identity->Ok_0.timeline),
        lsn == Ok::<Lsn, PgWireError>(identity->Ok_0.xlog_pos),
        identity->Ok_0.dbname is None <==> row->Ok_0@[3] is None,
        identity->Ok_0.dbname matches Some(name) ==> is_column_text(row->Ok_0@[3], name@),
{
    let columns = row->Ok_0@;
    lemma_views(columns);
    lemma_text(columns[0]);
    lemma_text(columns[1]);
    lemma_text(columns[2]);
    lemma_text(columns[3]);
    encode_utf8_decode_utf8(timeline);
    encode_utf8_decode_utf8(position@);
}

/// A row is refused exactly where something is wrong with it, and then for the first
/// thing that is wrong, in this order: the number of its columns, the timeline, the
/// position, the database name, the system identifier. The texts are those of the
/// timeline's and the position's columns, and `lsn` is what parsing the latter gives.
pub proof fn law_identity_is_refused_for_its_first_fault(
    payload: &[u8],
    row: Result<Vec<Option<&[u8]>>, PgWireError>,
    identity: Result<ServerIdentity, PgWireError>,
    position: &str,
    lsn: Result<Lsn, PgWireError>,
    timeline: Seq<char>,
)
    requires
        call_ensures(parse_data_row, (payload,), row),
        call_ensures(ServerIdentity::from_data_row, (payload,), identity),
        call_ensures(Lsn::parse, (position,), lsn),
        row is Ok,
        row->Ok_0@.len() == 4 && holds_text(row->Ok_0@[2]) ==> is_column_text(
            row->Ok_0@[2],
            position@,
        ),
        row->Ok_0@.len() == 4 && holds_text(row->Ok_0@[1]) ==> is_column_text(
            row->Ok_0@[1],
            timeline,
        ),
    ensures
        row->Ok_0@.len() != 4 ==> complains(
            identity,
            "IDENTIFY_SYSTEM returned "@ + decimal(row->Ok_0@.len()) + " columns, expected 4"@,
        ),
        row->Ok_0@.len() == 4 ==> {
            let columns = row->Ok_0@;
            let good_timeline = holds_text(columns[1]) && decimal_u32(timeline) is Some;
            let good_position = good_timeline && holds_text(columns[2]) && lsn is Ok;
            let good_name = good_position && (columns[3] is None || holds_text(columns[3]));
            &&& identity is Ok <==> good_name && holds_text(columns[0])
            &&& columns[1] is None ==> complains(identity, "IDENTIFY_SYSTEM timeline is null"@)
            &&& columns[1] is Some && !holds_text(columns[1]) ==> complains(
                identity,
                "IDENTIFY_SYSTEM timeline is not UTF-8"@,
            )
            &&& holds_text(columns[1]) && !good_timeline ==> complains(
                identity,
                "invalid IDENTIFY_SYSTEM timeline: "@ + parse_u32_complaint(timeline),
            )
            &&& good_timeline && columns[2] is None ==> complains(
                identity,
                "IDENTIFY_SYSTEM xlogpos is null"@,
            )
            &&& good_timeline && columns[2] is Some && !holds_text(columns[2]) ==> complains(
                identity,
                "IDENTIFY_SYSTEM xlogpos is not UTF-8"@,
            )
            &&& good_timeline && holds_text(columns[2]) ==> (lsn matches Err(
                PgWireError::Protocol(text),
            ) ==> complains(identity, "invalid IDENTIFY_SYSTEM xlogpos: "@ + text@))
            &&& good_position && !good_name ==> complains(
                identity,
                "IDENTIFY_SYSTEM dbname is not UTF-8"@,
            )
            &&& good_name && columns[0] is None ==> complains(
                identity,
                "IDENTIFY_SYSTEM systemid is null"@,
            )
            &&& good_name && columns[0] is Some && !holds_text(columns[0]) ==> complains(
                identity,
                "IDENTIFY_SYSTEM systemid is not UTF-8"@,
            )
        },
{
    let columns = row->Ok_0@;
    lemma_views(columns);
    lemma_fault_texts();
    if columns.len() == 4 {
        lemma_text(columns[0]);
        lemma_text(columns[1]);
        lemma_text(columns[2]);
        lemma_text(columns[3]);
        encode_utf8_decode_utf8(timeline);
        encode_utf8_decode_utf8(position@);
    }
}

proof fn lemma_views(columns: Seq<Option<&[u8]>>)
    ensures
        column_views(columns).len() == columns.len(),
        forall|i: int|
            0 <= i < columns.len() ==> #[trigger] column_views(columns)[i] == column_view(
                columns[i],
            ),
{
}

proof fn lemma_text(column: Option<&[u8]>)
    ensures
        holds_text(column) ==> is_column_text(column, decode_utf8(column->0@)),
{
    if holds_text(column) {
        decode_utf8_encode_utf8(column->0@);
    }
}

proof fn lemma_fault_texts()
    ensures
        "IDENTIFY_SYSTEM "@ + "timeline"@ + " is null"@ == "IDENTIFY_SYSTEM timeline is null"@,
        "IDENTIFY_SYSTEM "@ + "timeline"@ + " is not UTF-8"@
            == "IDENTIFY_SYSTEM timeline is not UTF-8"@,
        "IDENTIFY_SYSTEM "@ + "xlogpos"@ + " is null"@ == "IDENTIFY_SYSTEM xlogpos is null"@,
        "IDENTIFY_SYSTEM "@ + "xlogpos"@ + " is not UTF-8"@
            == "IDENTIFY_SYSTEM xlogpos is not UTF-8"@,
        "IDENTIFY_SYSTEM "@ + "dbname"@ + " is not UTF-8"@
            == "IDENTIFY_SYSTEM dbname is not UTF-8"@,
        "IDENTIFY_SYSTEM "@ + "systemid"@ + " is null"@ == "IDENTIFY_SYSTEM systemid is null"@,
        "IDENTIFY_SYSTEM "@ + "systemid"@ + " is not UTF-8"@
            == "IDENTIFY_SYSTEM systemid is not UTF-8"@,
{
    reveal_strlit("IDENTIFY_SYSTEM ");
    reveal_strlit("timeline");
    reveal_strlit("xlogpos");
    reveal_strlit("dbname");
    reveal_strlit("systemid");
    reveal_strlit(" is null");
    reveal_strlit(" is not UTF-8");
    reveal_strlit("IDENTIFY_SYSTEM timeline is null");
    reveal_strlit("IDENTIFY_SYSTEM timeline is not UTF-8");
    reveal_strlit("IDENTIFY_SYSTEM xlogpos is null");
    reveal_strlit("IDENTIFY_SYSTEM xlogpos is not UTF-8");
    reveal_strlit("IDENTIFY_SYSTEM dbname is not UTF-8");
    reveal_strlit("IDENTIFY_SYSTEM systemid is null");
    reveal_strlit("IDENTIFY_SYSTEM systemid is not UTF-8");
}

/// A timeline that was read as a number is that number; one that was not is refused
/// with all of what was said about it.
pub proof fn law_checked_timeline_keeps_the_number(
    number: Result<u32, String>,
    timeline: Result<u32, PgWireError>,
)
    requires
        call_ensures(checked_timeline, (number,), timeline),
    ensures
        number matches Ok(n) ==> timeline == Ok::<u32, PgWireError>(n),
        number matches Err(complaint) ==> complains(
            timeline,
            "invalid IDENTIFY_SYSTEM timeline: "@ + complaint@,
        ),
{
}

} // verus!
