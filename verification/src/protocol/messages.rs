//! The messages that the client reads before the replication stream starts.

pub use crate::protocol::auth;
pub use crate::protocol::data_row::parse_data_row;
pub use crate::protocol::error_fields::{parse_error_response, ErrorFields};

use crate::error::{ErrorView, PgWireError};
use crate::lsn::{law_lsn_read_back, lsn_text, lsn_value, no_lsn, Lsn};
use crate::protocol::data_row::{column_view, data_row, data_row_bytes, fits_data_row};
use crate::protocol::data_row::{law_row_read_back, truncated_row, ColumnView};
use crate::protocol::error_fields::text_of;
use crate::protocol::wire::{be_i32, get_i32, i32_bytes, law_i32_read_back};
use crate::text::{decimal, decimal_text, decimal_u32, from_utf8, join2, join3, parse_u32};
use crate::text::{law_decimal_read_back, parse_u32_complaint};
use vstd::prelude::*;
use vstd::string::*;
use vstd::utf8::{decode_utf8, encode_utf8, valid_utf8};
use vstd::utf8::{encode_utf8_decode_utf8, encode_utf8_valid_utf8, is_ascii_chars_encode_utf8};

verus! {

/// Parse an AuthenticationRequest payload.
///
/// Returns (auth_type, remaining_data).
/// Auth types:
/// - 0 = AuthenticationOk
/// - 3 = AuthenticationCleartextPassword
/// - 5 = AuthenticationMD5Password (data contains 4-byte salt)
/// - 10 = AuthenticationSASL (data contains mechanism names)
/// - 11 = AuthenticationSASLContinue
/// - 12 = AuthenticationSASLFinal
pub fn parse_auth_request(payload: &[u8]) -> (request: Result<(i32, &[u8]), PgWireError>)
    ensures
        match request {
            Ok((code, data)) => {
                &&& payload.len() >= 4
                &&& code == be_i32(payload@)
                &&& data@ == payload@.skip(4)
            },
            Err(e) => payload.len() < 4 && e@ == ErrorView::Protocol("auth request too short"@),
        },
{
    if payload.len() < 4 {
        return Err(PgWireError::Protocol("auth request too short".to_owned()));
    }
    let mut b = payload;
    let code: i32 = get_i32(&mut b);
    Ok((code, b))
}

/// An authentication request is read back from its bytes: the type, and the data
/// behind it byte for byte.
pub proof fn law_auth_request_read_back(code: i32, data: Seq<u8>)
    ensures
        (i32_bytes(code as int) + data).len() >= 4,
        be_i32(i32_bytes(code as int) + data) == code,
        (i32_bytes(code as int) + data).skip(4) == data,
{
    law_i32_read_back(code as int, data);
    assert((i32_bytes(code as int) + data).skip(4) =~= data);
}

/// Server identity reported by `IDENTIFY_SYSTEM`.
#[derive(Debug, Clone, PartialEq, Eq)]
#[non_exhaustive]
pub struct ServerIdentity {
    /// Unique identifier of the database cluster (`systemid`).
    pub system_id: String,
    /// Current timeline.
    pub timeline: u32,
    /// Current WAL flush location (`xlogpos`).
    pub xlog_pos: Lsn,
    /// Database connected to, if any.
    pub dbname: Option<String>,
}

/// A [`ServerIdentity`] with its texts as character sequences.
pub ghost struct IdentityView {
    pub system_id: Seq<char>,
    pub timeline: u32,
    pub xlog_pos: Lsn,
    pub dbname: Option<Seq<char>>,
}

impl View for ServerIdentity {
    type V = IdentityView;

    open spec fn view(&self) -> IdentityView {
        IdentityView {
            system_id: self.system_id@,
            timeline: self.timeline,
            xlog_pos: self.xlog_pos,
            dbname: text_of(self.dbname),
        }
    }
}

/// The text of a column that has to hold one, or what is wrong with the column.
pub open spec fn column_value(value: ColumnView, name: Seq<char>) -> Result<Seq<char>, ErrorView> {
    match value {
        None => Err(ErrorView::Protocol("IDENTIFY_SYSTEM "@ + name + " is null"@)),
        Some(bytes) => if valid_utf8(bytes) {
            Ok(decode_utf8(bytes))
        } else {
            Err(ErrorView::Protocol("IDENTIFY_SYSTEM "@ + name + " is not UTF-8"@))
        },
    }
}

/// The timeline that a column holds, or what is wrong with the column.
pub open spec fn timeline_value(value: ColumnView) -> Result<u32, ErrorView> {
    match column_value(value, "timeline"@) {
        Err(e) => Err(e),
        Ok(text) => match decimal_u32(text) {
            Some(timeline) => Ok(timeline),
            None => Err(bad_timeline(parse_u32_complaint(text))),
        },
    }
}

/// The error for a timeline that is no number, with what is wrong with it.
pub open spec fn bad_timeline(complaint: Seq<char>) -> ErrorView {
    ErrorView::Protocol("invalid IDENTIFY_SYSTEM timeline: "@ + complaint)
}

/// The WAL location that a column holds, or what is wrong with the column.
pub open spec fn xlog_pos_value(value: ColumnView) -> Result<Lsn, ErrorView> {
    match column_value(value, "xlogpos"@) {
        Err(e) => Err(e),
        Ok(text) => match lsn_value(text) {
            Some(position) => Ok(Lsn(position as u64)),
            None => Err(
                ErrorView::Protocol("invalid IDENTIFY_SYSTEM xlogpos: "@ + no_lsn(text)),
            ),
        },
    }
}

/// The database name that a column holds, or what is wrong with the column.
pub open spec fn dbname_value(value: ColumnView) -> Result<Option<Seq<char>>, ErrorView> {
    match value {
        None => Ok(None),
        Some(_) => match column_value(value, "dbname"@) {
            Ok(text) => Ok(Some(text)),
            Err(e) => Err(e),
        },
    }
}

/// The identity that the columns of an `IDENTIFY_SYSTEM` row report, or the first
/// thing that is wrong with them: their number, the timeline, the WAL location,
/// the database name, the system identifier.
pub open spec fn identity_of_columns(columns: Seq<ColumnView>) -> Result<IdentityView, ErrorView> {
    if columns.len() != 4 {
        Err(
            ErrorView::Protocol(
                "IDENTIFY_SYSTEM returned "@ + decimal(columns.len()) + " columns, expected 4"@,
            ),
        )
    } else {
        match timeline_value(columns[1]) {
            Err(e) => Err(e),
            Ok(timeline) => match xlog_pos_value(columns[2]) {
                Err(e) => Err(e),
                Ok(xlog_pos) => match dbname_value(columns[3]) {
                    Err(e) => Err(e),
                    Ok(dbname) => match column_value(columns[0], "systemid"@) {
                        Err(e) => Err(e),
                        Ok(system_id) => Ok(IdentityView { system_id, timeline, xlog_pos, dbname }),
                    },
                },
            },
        }
    }
}

/// The identity that an `IDENTIFY_SYSTEM` row reports, or what is wrong with it.
pub open spec fn identity_of_row(payload: Seq<u8>) -> Result<IdentityView, ErrorView> {
    match data_row(payload) {
        None => Err(truncated_row()),
        Some(columns) => identity_of_columns(columns),
    }
}

fn column_text<'a>(value: Option<&'a [u8]>, name: &str) -> (text: Result<&'a str, PgWireError>)
    ensures
        match text {
            Ok(s) => column_value(column_view(value), name@) == Ok::<Seq<char>, ErrorView>(s@),
            Err(e) => column_value(column_view(value), name@) == Err::<Seq<char>, ErrorView>(e@),
        },
{
    match value {
        None => Err(PgWireError::Protocol(join3("IDENTIFY_SYSTEM ", name, " is null"))),
        Some(bytes) => match from_utf8(bytes) {
            Some(s) => Ok(s),
            None => Err(PgWireError::Protocol(join3("IDENTIFY_SYSTEM ", name, " is not UTF-8"))),
        },
    }
}

/// The timeline, given what reading its text as a number came to.
pub fn checked_timeline(number: Result<u32, String>) -> (timeline: Result<u32, PgWireError>)
    ensures
        match (number, timeline) {
            (Ok(n), Ok(t)) => t == n,
            (Err(complaint), Err(e)) => e@ == bad_timeline(complaint@),
            _ => false,
        },
{
    match number {
        Ok(n) => Ok(n),
        Err(complaint) => Err(
            PgWireError::Protocol(
                join2("invalid IDENTIFY_SYSTEM timeline: ", complaint.as_str()),
            ),
        ),
    }
}

fn column_timeline(value: Option<&[u8]>) -> (timeline: Result<u32, PgWireError>)
    ensures
        match timeline {
            Ok(t) => timeline_value(column_view(value)) == Ok::<u32, ErrorView>(t),
            Err(e) => timeline_value(column_view(value)) == Err::<u32, ErrorView>(e@),
        },
{
    let text = column_text(value, "timeline")?;
    let number = match parse_u32(text) {
        Ok(n) => Ok(n),
        Err(e) => Err(e.to_string()),
    };
    checked_timeline(number)
}

fn column_xlog_pos(value: Option<&[u8]>) -> (xlog_pos: Result<Lsn, PgWireError>)
    ensures
        match xlog_pos {
            Ok(position) => xlog_pos_value(column_view(value)) == Ok::<Lsn, ErrorView>(position),
            Err(e) => xlog_pos_value(column_view(value)) == Err::<Lsn, ErrorView>(e@),
        },
{
    let text = column_text(value, "xlogpos")?;
    match Lsn::parse(text) {
        Ok(position) => Ok(position),
        Err(e) => Err(
            PgWireError::Protocol(
                join2("invalid IDENTIFY_SYSTEM xlogpos: ", e.to_string().as_str()),
            ),
        ),
    }
}

fn column_dbname(value: Option<&[u8]>) -> (dbname: Result<Option<String>, PgWireError>)
    ensures
        match dbname {
            Ok(name) => dbname_value(column_view(value)) == Ok::<Option<Seq<char>>, ErrorView>(
                text_of(name),
            ),
            Err(e) => dbname_value(column_view(value)) == Err::<Option<Seq<char>>, ErrorView>(e@),
        },
{
    match value {
        None => Ok(None),
        Some(_) => {
            let text = column_text(value, "dbname")?;
            Ok(Some(text.to_owned()))
        },
    }
}

impl ServerIdentity {
    /// Parse the DataRow payload of an `IDENTIFY_SYSTEM` response.
    pub fn from_data_row(payload: &[u8]) -> (identity: Result<Self, PgWireError>)
        ensures
            match identity {
                Ok(id) => identity_of_row(payload@) == Ok::<IdentityView, ErrorView>(id@),
                Err(e) => identity_of_row(payload@) == Err::<IdentityView, ErrorView>(e@),
            },
    {
        let columns = parse_data_row(payload)?;
        if columns.len() != 4 {
            return Err(
                PgWireError::Protocol(
                    join3(
                        "IDENTIFY_SYSTEM returned ",
                        decimal_text(columns.len() as u64).as_str(),
                        " columns, expected 4",
                    ),
                ),
            );
        }
        let timeline: u32 = column_timeline(columns[1])?;
        let xlog_pos = column_xlog_pos(columns[2])?;
        let dbname = column_dbname(columns[3])?;
        let system_id = column_text(columns[0], "systemid")?.to_owned();
        Ok(ServerIdentity { system_id, timeline, xlog_pos, dbname })
    }
}

/// The columns that report an identity, as the server writes them.
pub open spec fn identity_columns(identity: IdentityView) -> Seq<ColumnView> {
    seq![
        Some(encode_utf8(identity.system_id)),
        Some(encode_utf8(decimal(identity.timeline as nat))),
        Some(encode_utf8(lsn_text(identity.xlog_pos.0 as nat))),
        match identity.dbname {
            Some(name) => Some(encode_utf8(name)),
            None => None,
        },
    ]
}

/// A server identity is read back from the row that reports it.
pub proof fn law_identity_read_back(identity: IdentityView, tail: Seq<u8>)
    requires
        encode_utf8(identity.system_id).len() <= i32::MAX,
        identity.dbname matches Some(name) ==> encode_utf8(name).len() <= i32::MAX,
    ensures
        identity_of_row(data_row_bytes(identity_columns(identity)) + tail) == Ok::<
            IdentityView,
            ErrorView,
        >(identity),
{
    lemma_identity_fits(identity);
    lemma_identity_columns_read_back(identity);
    law_row_read_back(identity_columns(identity), tail);
}

proof fn lemma_identity_fits(identity: IdentityView)
    requires
        encode_utf8(identity.system_id).len() <= i32::MAX,
        identity.dbname matches Some(name) ==> encode_utf8(name).len() <= i32::MAX,
    ensures
        fits_data_row(identity_columns(identity)),
{
    law_decimal_read_back(identity.timeline);
    is_ascii_chars_encode_utf8(decimal(identity.timeline as nat));
    law_lsn_read_back(identity.xlog_pos);
    is_ascii_chars_encode_utf8(lsn_text(identity.xlog_pos.0 as nat));
}

proof fn lemma_identity_columns_read_back(identity: IdentityView)
    ensures
        identity_of_columns(identity_columns(identity)) == Ok::<IdentityView, ErrorView>(identity),
{
    lemma_text_column(identity.system_id, "systemid"@);
    lemma_text_column(decimal(identity.timeline as nat), "timeline"@);
    law_decimal_read_back(identity.timeline);
    lemma_text_column(lsn_text(identity.xlog_pos.0 as nat), "xlogpos"@);
    law_lsn_read_back(identity.xlog_pos);
    if let Some(name) = identity.dbname {
        lemma_text_column(name, "dbname"@);
    }
}

proof fn lemma_text_column(text: Seq<char>, name: Seq<char>)
    ensures
        column_value(Some(encode_utf8(text)), name) == Ok::<Seq<char>, ErrorView>(text),
{
    encode_utf8_valid_utf8(text);
    encode_utf8_decode_utf8(text);
}

/// A row without a system identifier, without a timeline or without a WAL
/// location is refused, and so is one that has more or fewer than four columns.
pub proof fn law_incomplete_identity_refused(columns: Seq<ColumnView>)
    requires
        columns.len() != 4 || columns[0] is None || columns[1] is None || columns[2] is None,
    ensures
        identity_of_columns(columns) is Err,
{
}

} // verus!
