//! ErrorResponse and NoticeResponse messages.

use crate::text::{from_utf8_lossy, join3, lossy_text};
use vstd::prelude::*;
use vstd::slice::slice_subrange;
use vstd::string::*;
use vstd::utf8::{encode_utf8, encode_utf8_decode_utf8, encode_utf8_valid_utf8};

verus! {

/// Parsed PostgreSQL error/notice response fields
#[derive(Debug, Clone, PartialEq, Eq)]
pub struct ErrorFields {
    pub severity: Option<String>,
    /// The SQLSTATE.
    pub code: Option<String>,
    pub message: Option<String>,
    pub detail: Option<String>,
    pub hint: Option<String>,
    pub position: Option<String>,
    pub where_: Option<String>,
    pub schema: Option<String>,
    pub table: Option<String>,
    pub column: Option<String>,
    pub data_type: Option<String>,
    pub constraint: Option<String>,
    pub file: Option<String>,
    pub line: Option<String>,
    pub routine: Option<String>,
}

/// The code of the field `severity`: the byte `S`.
pub const SEVERITY: u8 = 0x53;

/// The code of the field `code`: the byte `C`.
pub const SQLSTATE: u8 = 0x43;

/// The code of the field `message`: the byte `M`.
pub const MESSAGE: u8 = 0x4d;

/// The code of the field `detail`: the byte `D`.
pub const DETAIL: u8 = 0x44;

/// The code of the field `hint`: the byte `H`.
pub const HINT: u8 = 0x48;

/// The code of the field `position`: the byte `P`.
pub const POSITION: u8 = 0x50;

/// The code of the field `where_`: the byte `W`.
pub const WHERE: u8 = 0x57;

/// The code of the field `schema`: the byte `s`.
pub const SCHEMA: u8 = 0x73;

/// The code of the field `table`: the byte `t`.
pub const TABLE: u8 = 0x74;

/// The code of the field `column`: the byte `c`.
pub const COLUMN: u8 = 0x63;

/// The code of the field `data_type`: the byte `d`.
pub const DATA_TYPE: u8 = 0x64;

/// The code of the field `constraint`: the byte `n`.
pub const CONSTRAINT: u8 = 0x6e;

/// The code of the field `file`: the byte `F`.
pub const FILE: u8 = 0x46;

/// The code of the field `line`: the byte `L`.
pub const LINE: u8 = 0x4c;

/// The code of the field `routine`: the byte `R`.
pub const ROUTINE: u8 = 0x52;

/// A field of a response as it came: its code and the bytes of its value.
pub type FieldView = (u8, Seq<u8>);

/// The place of the first zero byte of `b`, or its length where it has none.
pub open spec fn zero_place(b: Seq<u8>) -> int
    decreases b.len(),
{
    if b.len() == 0 || b[0] == 0 {
        0
    } else {
        1 + zero_place(b.skip(1))
    }
}

/// The fields that a payload carries: each a code that is not zero, the value,
/// and a zero byte. They end with the payload, with a zero byte in the place of
/// a code, or with a value that no zero byte ends, which does not count.
pub open spec fn response_fields(payload: Seq<u8>) -> Seq<FieldView>
    decreases payload.len(),
{
    if payload.len() == 0 || payload[0] == 0 {
        seq![]
    } else {
        let b = payload.skip(1);
        let end = zero_place(b);
        if 0 <= end < b.len() {
            seq![(payload[0], b.take(end))] + response_fields(b.skip(end + 1))
        } else {
            seq![]
        }
    }
}

/// The text of the last field with this code.
pub open spec fn field_text(fields: Seq<FieldView>, code: u8) -> Option<Seq<char>>
    decreases fields.len(),
{
    if fields.len() == 0 {
        None
    } else if fields.last().0 == code {
        Some(lossy_text(fields.last().1))
    } else {
        field_text(fields.drop_last(), code)
    }
}

/// The text of an optional string.
pub open spec fn text_of(value: Option<String>) -> Option<Seq<char>> {
    match value {
        Some(s) => Some(s@),
        None => None,
    }
}

/// What a response with this message and this SQLSTATE says.
pub open spec fn error_text(message: Option<Seq<char>>, code: Option<Seq<char>>) -> Seq<char> {
    match (message, code) {
        (Some(m), Some(c)) => m + " (SQLSTATE "@ + c + ")"@,
        (Some(m), None) => m,
        (None, Some(c)) => "error (SQLSTATE "@ + c + ")"@,
        (None, None) => "unknown server error"@,
    }
}

impl Default for ErrorFields {
    /// No field at all.
    fn default() -> (fields: Self)
        ensures
            fields == ErrorFields::none(),
    {
        ErrorFields {
            severity: None,
            code: None,
            message: None,
            detail: None,
            hint: None,
            position: None,
            where_: None,
            schema: None,
            table: None,
            column: None,
            data_type: None,
            constraint: None,
            file: None,
            line: None,
            routine: None,
        }
    }
}

impl ErrorFields {
    /// No field at all.
    pub open spec fn none() -> ErrorFields {
        ErrorFields {
            severity: None,
            code: None,
            message: None,
            detail: None,
            hint: None,
            position: None,
            where_: None,
            schema: None,
            table: None,
            column: None,
            data_type: None,
            constraint: None,
            file: None,
            line: None,
            routine: None,
        }
    }

    /// These fields with the one of this code set; codes that have no field
    /// change nothing.
    pub open spec fn with_field(self, code: u8, text: String) -> ErrorFields {
        match code {
            SEVERITY => ErrorFields { severity: Some(text), ..self },
            SQLSTATE => ErrorFields { code: Some(text), ..self },
            MESSAGE => ErrorFields { message: Some(text), ..self },
            DETAIL => ErrorFields { detail: Some(text), ..self },
            HINT => ErrorFields { hint: Some(text), ..self },
            POSITION => ErrorFields { position: Some(text), ..self },
            WHERE => ErrorFields { where_: Some(text), ..self },
            SCHEMA => ErrorFields { schema: Some(text), ..self },
            TABLE => ErrorFields { table: Some(text), ..self },
            COLUMN => ErrorFields { column: Some(text), ..self },
            DATA_TYPE => ErrorFields { data_type: Some(text), ..self },
            CONSTRAINT => ErrorFields { constraint: Some(text), ..self },
            FILE => ErrorFields { file: Some(text), ..self },
            LINE => ErrorFields { line: Some(text), ..self },
            ROUTINE => ErrorFields { routine: Some(text), ..self },
            _ => self,
        }
    }

    /// Every field holds the text of the last of `fields` with its code.
    pub open spec fn hold(self, fields: Seq<FieldView>) -> bool {
        &&& text_of(self.severity) == field_text(fields, SEVERITY)
        &&& text_of(self.code) == field_text(fields, SQLSTATE)
        &&& text_of(self.message) == field_text(fields, MESSAGE)
        &&& text_of(self.detail) == field_text(fields, DETAIL)
        &&& text_of(self.hint) == field_text(fields, HINT)
        &&& text_of(self.position) == field_text(fields, POSITION)
        &&& text_of(self.where_) == field_text(fields, WHERE)
        &&& text_of(self.schema) == field_text(fields, SCHEMA)
        &&& text_of(self.table) == field_text(fields, TABLE)
        &&& text_of(self.column) == field_text(fields, COLUMN)
        &&& text_of(self.data_type) == field_text(fields, DATA_TYPE)
        &&& text_of(self.constraint) == field_text(fields, CONSTRAINT)
        &&& text_of(self.file) == field_text(fields, FILE)
        &&& text_of(self.line) == field_text(fields, LINE)
        &&& text_of(self.routine) == field_text(fields, ROUTINE)
    }

    /// Set the field of this code; an unknown code is ignored.
    pub fn set_field(&mut self, code: u8, text: String)
        ensures
            *final(self) == old(self).with_field(code, text),
    {
        match code {
            SEVERITY => self.severity = Some(text),
            SQLSTATE => self.code = Some(text),
            MESSAGE => self.message = Some(text),
            DETAIL => self.detail = Some(text),
            HINT => self.hint = Some(text),
            POSITION => self.position = Some(text),
            WHERE => self.where_ = Some(text),
            SCHEMA => self.schema = Some(text),
            TABLE => self.table = Some(text),
            COLUMN => self.column = Some(text),
            DATA_TYPE => self.data_type = Some(text),
            CONSTRAINT => self.constraint = Some(text),
            FILE => self.file = Some(text),
            LINE => self.line = Some(text),
            ROUTINE => self.routine = Some(text),
            _ => {},
        }
    }

    /// Parse error fields from payload bytes
    pub fn parse(payload: &[u8]) -> (fields: Self)
        ensures
            fields.hold(response_fields(payload@)),
    {
        let mut fields = ErrorFields::default();
        let mut b = payload;
        let ghost mut done: Seq<FieldView> = seq![];
        assert(done + response_fields(payload@) =~= response_fields(payload@));
        while b.len() > 0
            invariant_except_break
                response_fields(payload@) == done + response_fields(b@),
            invariant
                fields.hold(done),
            ensures
                response_fields(payload@) == done,
            decreases b.len(),
        {
            let code: u8 = b[0];
            if code == 0 {
                assert(done + response_fields(b@) =~= done);
                break;
            }
            let rest = slice_subrange(b, 1, b.len());
            assert(rest@ =~= b@.skip(1));
            let pos: usize = find_zero(rest);
            if pos == rest.len() {
                assert(done + response_fields(b@) =~= done);
                break;
            }
            let value = slice_subrange(rest, 0, pos);
            assert(value@ =~= rest@.take(pos as int));
            let text = from_utf8_lossy(value);
            fields.set_field(code, text);
            let after = slice_subrange(rest, pos + 1, rest.len());
            proof {
                let field = (code, value@);
                assert(after@ =~= rest@.skip(pos + 1));
                assert(done.push(field) + response_fields(after@) =~= done + (seq![field]
                    + response_fields(after@)));
                assert(done.push(field).drop_last() =~= done);
                done = done.push(field);
            }
            b = after;
        }
        fields
    }

    /// Format as a human-readable error string
    pub fn to_error_string(&self) -> (text: String)
        ensures
            text@ == error_text(text_of(self.message), text_of(self.code)),
    {
        match (&self.message, &self.code) {
            (Some(m), Some(c)) => join3(m.as_str(), " (SQLSTATE ", c.as_str()).concat(")"),
            (Some(m), None) => m.clone(),
            (None, Some(c)) => join3("error (SQLSTATE ", c.as_str(), ")"),
            (None, None) => "unknown server error".to_owned(),
        }
    }
}

/// The place of the first zero byte of `b`, or its length where it has none.
fn find_zero(b: &[u8]) -> (place: usize)
    ensures
        place == zero_place(b@),
        place <= b.len(),
{
    let mut place: usize = 0;
    assert(b@.skip(0) =~= b@);
    while place < b.len() && b[place] != 0
        invariant
            place <= b.len(),
            zero_place(b@) == place + zero_place(b@.skip(place as int)),
        decreases b.len() - place,
    {
        assert(b@.skip(place as int).skip(1) =~= b@.skip(place + 1));
        place = place + 1;
    }
    place
}

/// Parse an ErrorResponse payload into a human-readable string.
///
/// For more detailed error information, use `ErrorFields::parse()` instead.
pub fn parse_error_response(payload: &[u8]) -> (text: String)
    ensures
        text@ == ({
            let fields = response_fields(payload@);
            error_text(field_text(fields, MESSAGE), field_text(fields, SQLSTATE))
        }),
{
    ErrorFields::parse(payload).to_error_string()
}

/// The bytes that carry one field.
pub open spec fn field_bytes(field: FieldView) -> Seq<u8> {
    seq![field.0] + field.1 + seq![0u8]
}

/// The bytes that carry fields, one behind the other.
pub open spec fn fields_bytes(fields: Seq<FieldView>) -> Seq<u8>
    decreases fields.len(),
{
    if fields.len() == 0 {
        seq![]
    } else {
        field_bytes(fields[0]) + fields_bytes(fields.skip(1))
    }
}

/// No byte of `b` is zero.
pub open spec fn without_zero(b: Seq<u8>) -> bool {
    forall|i: int| 0 <= i < b.len() ==> #[trigger] b[i] != 0
}

/// A response can carry `fields`: neither a code nor a byte of a value is zero.
pub open spec fn fit_response(fields: Seq<FieldView>) -> bool {
    forall|i: int|
        0 <= i < fields.len() ==> (#[trigger] fields[i]).0 != 0 && without_zero(fields[i].1)
}

/// `code` is one that [`ErrorFields`] has a field for.
pub open spec fn is_known(code: u8) -> bool {
    ||| code == SEVERITY
    ||| code == SQLSTATE
    ||| code == MESSAGE
    ||| code == DETAIL
    ||| code == HINT
    ||| code == POSITION
    ||| code == WHERE
    ||| code == SCHEMA
    ||| code == TABLE
    ||| code == COLUMN
    ||| code == DATA_TYPE
    ||| code == CONSTRAINT
    ||| code == FILE
    ||| code == LINE
    ||| code == ROUTINE
}

proof fn lemma_zero_place(value: Seq<u8>, tail: Seq<u8>)
    requires
        without_zero(value),
    ensures
        zero_place(value + tail) == value.len() + zero_place(tail),
    decreases value.len(),
{
    if value.len() == 0 {
        assert(value + tail =~= tail);
    } else {
        let rest = value.skip(1);
        assert((value + tail).skip(1) =~= rest + tail);
        assert(forall|i: int| 0 <= i < rest.len() ==> rest[i] == value[i + 1]);
        lemma_zero_place(rest, tail);
    }
}

/// Fields are read back from the front of a payload, and what follows them is
/// read as it would be on its own.
pub proof fn law_fields_read_back(fields: Seq<FieldView>, tail: Seq<u8>)
    requires
        fit_response(fields),
    ensures
        response_fields(fields_bytes(fields) + tail) == fields + response_fields(tail),
    decreases fields.len(),
{
    if fields.len() == 0 {
        assert(fields_bytes(fields) + tail =~= tail);
        assert(fields + response_fields(tail) =~= response_fields(tail));
    } else {
        let rest = fields.skip(1);
        let after = fields_bytes(rest) + tail;
        let payload = fields_bytes(fields) + tail;
        let (code, value) = fields[0];
        assert(payload =~= seq![code] + (value + (seq![0u8] + after)));
        let b = payload.skip(1);
        assert(b =~= value + (seq![0u8] + after));
        lemma_zero_place(value, seq![0u8] + after);
        assert(b.take(value.len() as int) =~= value);
        assert(b.skip(value.len() as int + 1) =~= after);
        assert(forall|i: int| 0 <= i < rest.len() ==> rest[i] == fields[i + 1]);
        law_fields_read_back(rest, tail);
        assert(fields + response_fields(tail) =~= seq![fields[0]] + (rest + response_fields(tail)));
    }
}

/// A whole response gives back its fields; nothing behind the final zero byte is
/// looked at.
pub proof fn law_response_read_back(fields: Seq<FieldView>, tail: Seq<u8>)
    requires
        fit_response(fields),
    ensures
        response_fields(fields_bytes(fields) + seq![0u8] + tail) == fields,
{
    law_fields_read_back(fields, seq![0u8] + tail);
    assert(fields_bytes(fields) + (seq![0u8] + tail) =~= fields_bytes(fields) + seq![0u8] + tail);
    assert(fields + response_fields(seq![0u8] + tail) =~= fields);
}

/// A field whose value no zero byte ends is skipped, and those before it are kept.
pub proof fn law_unfinished_field_skipped(fields: Seq<FieldView>, code: u8, part: Seq<u8>)
    requires
        fit_response(fields),
        without_zero(part),
    ensures
        response_fields(fields_bytes(fields) + (seq![code] + part)) == fields,
{
    let tail = seq![code] + part;
    law_fields_read_back(fields, tail);
    assert(tail.skip(1) =~= part);
    lemma_zero_place(part, seq![]);
    assert(part + seq![] =~= part);
    assert(fields + response_fields(tail) =~= fields);
}

/// A field with an unknown code changes nothing, wherever it stands.
pub proof fn law_unknown_field_ignored(
    read: ErrorFields,
    before: Seq<FieldView>,
    unknown: FieldView,
    after: Seq<FieldView>,
)
    requires
        !is_known(unknown.0),
    ensures
        read.hold(before + seq![unknown] + after) == read.hold(before + after),
{
    assert forall|code: u8| is_known(code) implies #[trigger] field_text(
        before + seq![unknown] + after,
        code,
    ) == field_text(before + after, code) by {
        lemma_other_field_ignored(before, unknown, after, code);
    }
}

proof fn lemma_other_field_ignored(
    before: Seq<FieldView>,
    other: FieldView,
    after: Seq<FieldView>,
    code: u8,
)
    requires
        other.0 != code,
    ensures
        field_text(before + seq![other] + after, code) == field_text(before + after, code),
    decreases after.len(),
{
    let fields = before + seq![other] + after;
    if after.len() == 0 {
        assert(fields.drop_last() =~= before + after);
    } else {
        lemma_other_field_ignored(before, other, after.drop_last(), code);
        assert(fields.drop_last() =~= before + seq![other] + after.drop_last());
        assert((before + after).drop_last() =~= before + after.drop_last());
    }
}

/// Of several fields with one code the last one counts.
pub proof fn law_last_field_counts(
    before: Seq<FieldView>,
    field: FieldView,
    after: Seq<FieldView>,
)
    requires
        forall|i: int| 0 <= i < after.len() ==> (#[trigger] after[i]).0 != field.0,
    ensures
        field_text(before + seq![field] + after, field.0) == Some(lossy_text(field.1)),
    decreases after.len(),
{
    let fields = before + seq![field] + after;
    if after.len() > 0 {
        law_last_field_counts(before, field, after.drop_last());
        assert(fields.drop_last() =~= before + seq![field] + after.drop_last());
        assert(fields.last() == after[after.len() - 1]);
    }
}

/// A text that is sent as a field is read back as that text.
pub proof fn law_field_text_read_back(
    before: Seq<FieldView>,
    code: u8,
    text: Seq<char>,
    after: Seq<FieldView>,
    tail: Seq<u8>,
)
    requires
        fit_response(before + seq![(code, encode_utf8(text))] + after),
        forall|i: int| 0 <= i < after.len() ==> (#[trigger] after[i]).0 != code,
    ensures
        field_text(
            response_fields(
                fields_bytes(before + seq![(code, encode_utf8(text))] + after) + seq![0u8] + tail,
            ),
            code,
        ) == Some(text),
{
    encode_utf8_valid_utf8(text);
    encode_utf8_decode_utf8(text);
    law_response_read_back(before + seq![(code, encode_utf8(text))] + after, tail);
    law_last_field_counts(before, (code, encode_utf8(text)), after);
}

} // verus!
