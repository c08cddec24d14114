//! What holds of ErrorResponse messages, whatever they carry.

use crate::protocol::error_fields::{field_text, fields_bytes, fit_response, law_fields_read_back};
use crate::protocol::error_fields::{parse_error_response, response_fields, without_zero};
use crate::protocol::error_fields::{zero_place, ErrorFields, FieldView};
use crate::text::utf8_replaced;
use vstd::prelude::*;
use vstd::string::*;
use vstd::utf8::{decode_utf8_encode_utf8, encode_utf8, encode_utf8_decode_utf8};
use vstd::utf8::{encode_utf8_valid_utf8, valid_utf8};

verus! {

/// No further field can be read from `rest`: it is empty, or a zero byte stands in
/// the place of a code, or a value starts that no zero byte ends.
pub open spec fn ends_response(rest: Seq<u8>) -> bool {
    rest.len() == 0 || rest[0] == 0 || without_zero(rest.skip(1))
}

/// Every payload, of whatever bytes, is some fields and then something from which
/// no further field can be read.
pub proof fn law_every_payload_splits(payload: Seq<u8>) -> (parts: (Seq<FieldView>, Seq<u8>))
    ensures
        fit_response(parts.0),
        ends_response(parts.1),
        payload == fields_bytes(parts.0) + parts.1,
    decreases payload.len(),
{
    if payload.len() == 0 || payload[0] == 0 {
        assert(fields_bytes(seq![]) + payload =~= payload);
        (seq![], payload)
    } else {
        let b = payload.skip(1);
        let end = zero_place(b);
        lemma_first_zero(b);
        if end < b.len() {
            let field = (payload[0], b.take(end));
            let (others, rest) = law_every_payload_splits(b.skip(end + 1));
            let fields = seq![field] + others;
            assert(fields.skip(1) =~= others);
            assert(forall|i: int| 0 < i < fields.len() ==> fields[i] == others[i - 1]);
            assert(payload =~= seq![payload[0]] + b.take(end) + seq![0u8] + (fields_bytes(others)
                + rest));
            assert(payload =~= fields_bytes(fields) + rest);
            (fields, rest)
        } else {
            assert(b.take(end) =~= b);
            assert(fields_bytes(seq![]) + payload =~= payload);
            (seq![], payload)
        }
    }
}

proof fn lemma_first_zero(b: Seq<u8>)
    ensures
        0 <= zero_place(b) <= b.len(),
        without_zero(b.take(zero_place(b))),
        zero_place(b) < b.len() ==> b[zero_place(b)] == 0,
    decreases b.len(),
{
    if b.len() > 0 && b[0] != 0 {
        let rest = b.skip(1);
        lemma_first_zero(rest);
        let end = zero_place(rest);
        assert forall|i: int| 0 <= i < zero_place(b) implies #[trigger] b.take(zero_place(b))[i]
            != 0 by {
            if i > 0 {
                assert(rest.take(end)[i - 1] == b[i]);
            }
        }
        assert(end < rest.len() ==> b[end + 1] == rest[end]);
    }
}

/// The field at `i` is the last one with this code.
pub open spec fn is_last_of(fields: Seq<FieldView>, code: u8, i: int) -> bool {
    &&& 0 <= i < fields.len()
    &&& fields[i].0 == code
    &&& forall|j: int| i < j < fields.len() ==> (#[trigger] fields[j]).0 != code
}

/// `text` is what `bytes` say: it encodes to them where they are UTF-8.
pub open spec fn is_text_of(bytes: Seq<u8>, text: Seq<char>) -> bool {
    if valid_utf8(bytes) {
        encode_utf8(text) == bytes
    } else {
        text == utf8_replaced(bytes)
    }
}

/// `value` is what the last of `fields` with this code says, or nothing where no
/// field has it.
pub open spec fn is_last_said(fields: Seq<FieldView>, code: u8, value: Option<String>) -> bool {
    match value {
        Some(text) => exists|i: int| #[trigger]
            is_last_of(fields, code, i) && is_text_of(fields[i].1, text@),
        None => forall|i: int| 0 <= i < fields.len() ==> (#[trigger] fields[i]).0 != code,
    }
}

proof fn lemma_last_said(fields: Seq<FieldView>, code: u8)
    ensures
        match field_text(fields, code) {
            Some(text) => exists|i: int| #[trigger]
                is_last_of(fields, code, i) && is_text_of(fields[i].1, text),
            None => forall|i: int| 0 <= i < fields.len() ==> (#[trigger] fields[i]).0 != code,
        },
    decreases fields.len(),
{
    if fields.len() > 0 {
        let last = fields.len() - 1;
        if fields.last().0 == code {
            assert(is_last_of(fields, code, last));
            if valid_utf8(fields[last].1) {
                decode_utf8_encode_utf8(fields[last].1);
            }
        } else {
            let earlier = fields.drop_last();
            lemma_last_said(earlier, code);
            match field_text(earlier, code) {
                Some(text) => {
                    let i = choose|i: int| #[trigger]
                        is_last_of(earlier, code, i) && is_text_of(earlier[i].1, text);
                    assert forall|j: int| i < j < fields.len() implies (#[trigger] fields[j]).0
                        != code by {
                        if j < last {
                            assert(earlier[j].0 != code);
                        }
                    }
                    assert(is_last_of(fields, code, i));
                },
                None => {
                    assert forall|i: int| 0 <= i < fields.len() implies (#[trigger] fields[i]).0
                        != code by {
                        if i < last {
                            assert(earlier[i].0 != code);
                        }
                    }
                },
            }
        }
    }
}

/// Every field of the result holds what the last field with its own code says, and
/// nothing where no field has that code. No other field has a say in it, whichever
/// others there are.
pub proof fn law_parse_holds_what_was_sent(
    payload: &[u8],
    read: ErrorFields,
    fields: Seq<FieldView>,
    rest: Seq<u8>,
)
    requires
        call_ensures(ErrorFields::parse, (payload,), read),
        payload@ == fields_bytes(fields) + rest,
        fit_response(fields),
        ends_response(rest),
    ensures
        is_last_said(fields, 0x53, read.severity),
        is_last_said(fields, 0x43, read.code),
        is_last_said(fields, 0x4d, read.message),
        is_last_said(fields, 0x44, read.detail),
        is_last_said(fields, 0x48, read.hint),
        is_last_said(fields, 0x50, read.position),
        is_last_said(fields, 0x57, read.where_),
        is_last_said(fields, 0x73, read.schema),
        is_last_said(fields, 0x74, read.table),
        is_last_said(fields, 0x63, read.column),
        is_last_said(fields, 0x64, read.data_type),
        is_last_said(fields, 0x6e, read.constraint),
        is_last_said(fields, 0x46, read.file),
        is_last_said(fields, 0x4c, read.line),
        is_last_said(fields, 0x52, read.routine),
{
    lemma_fields_of(fields, rest);
    lemma_last_said(fields, 0x53);
    lemma_last_said(fields, 0x43);
    lemma_last_said(fields, 0x4d);
    lemma_last_said(fields, 0x44);
    lemma_last_said(fields, 0x48);
    lemma_last_said(fields, 0x50);
    lemma_last_said(fields, 0x57);
    lemma_last_said(fields, 0x73);
    lemma_last_said(fields, 0x74);
    lemma_last_said(fields, 0x63);
    lemma_last_said(fields, 0x64);
    lemma_last_said(fields, 0x6e);
    lemma_last_said(fields, 0x46);
    lemma_last_said(fields, 0x4c);
    lemma_last_said(fields, 0x52);
}

proof fn lemma_fields_of(fields: Seq<FieldView>, rest: Seq<u8>)
    requires
        fit_response(fields),
        ends_response(rest),
    ensures
        response_fields(fields_bytes(fields) + rest) == fields,
{
    law_fields_read_back(fields, rest);
    if rest.len() > 0 && rest[0] != 0 {
        let b = rest.skip(1);
        lemma_first_zero(b);
    }
    assert(response_fields(rest) =~= seq![]);
    assert(fields + response_fields(rest) =~= fields);
}

/// A text that is sent in a field of a known code is what that field of the result
/// holds, unless a later field has the same code; whatever other fields come before
/// or behind it.
pub proof fn law_sent_text_is_held(
    payload: &[u8],
    read: ErrorFields,
    before: Seq<FieldView>,
    code: u8,
    text: Seq<char>,
    after: Seq<FieldView>,
    rest: Seq<u8>,
)
    requires
        call_ensures(ErrorFields::parse, (payload,), read),
        payload@ == fields_bytes(before + seq![(code, encode_utf8(text))] + after) + rest,
        fit_response(before + seq![(code, encode_utf8(text))] + after),
        forall|i: int| 0 <= i < after.len() ==> (#[trigger] after[i]).0 != code,
        ends_response(rest),
    ensures
        code == 0x53 ==> (read.severity matches Some(s) && s@ == text),
        code == 0x43 ==> (read.code matches Some(s) && s@ == text),
        code == 0x4d ==> (read.message matches Some(s) && s@ == text),
        code == 0x44 ==> (read.detail matches Some(s) && s@ == text),
        code == 0x48 ==> (read.hint matches Some(s) && s@ == text),
        code == 0x50 ==> (read.position matches Some(s) && s@ == text),
        code == 0x57 ==> (read.where_ matches Some(s) && s@ == text),
        code == 0x73 ==> (read.schema matches Some(s) && s@ == text),
        code == 0x74 ==> (read.table matches Some(s) && s@ == text),
        code == 0x63 ==> (read.column matches Some(s) && s@ == text),
        code == 0x64 ==> (read.data_type matches Some(s) && s@ == text),
        code == 0x6e ==> (read.constraint matches Some(s) && s@ == text),
        code == 0x46 ==> (read.file matches Some(s) && s@ == text),
        code == 0x4c ==> (read.line matches Some(s) && s@ == text),
        code == 0x52 ==> (read.routine matches Some(s) && s@ == text),
{
    let fields = before + seq![(code, encode_utf8(text))] + after;
    law_parse_holds_what_was_sent(payload, read, fields, rest);
    lemma_only_last_said(before, code, text, after, read.severity);
    lemma_only_last_said(before, code, text, after, read.code);
    lemma_only_last_said(before, code, text, after, read.message);
    lemma_only_last_said(before, code, text, after, read.detail);
    lemma_only_last_said(before, code, text, after, read.hint);
    lemma_only_last_said(before, code, text, after, read.position);
    lemma_only_last_said(before, code, text, after, read.where_);
    lemma_only_last_said(before, code, text, after, read.schema);
    lemma_only_last_said(before, code, text, after, read.table);
    lemma_only_last_said(before, code, text, after, read.column);
    lemma_only_last_said(before, code, text, after, read.data_type);
    lemma_only_last_said(before, code, text, after, read.constraint);
    lemma_only_last_said(before, code, text, after, read.file);
    lemma_only_last_said(before, code, text, after, read.line);
    lemma_only_last_said(before, code, text, after, read.routine);
}

proof fn lemma_only_last_said(
    before: Seq<FieldView>,
    code: u8,
    text: Seq<char>,
    after: Seq<FieldView>,
    value: Option<String>,
)
    requires
        forall|i: int| 0 <= i < after.len() ==> (#[trigger] after[i]).0 != code,
    ensures
        is_last_said(before + seq![(code, encode_utf8(text))] + after, code, value) ==> (
        value matches Some(s) && s@ == text),
{
    let fields = before + seq![(code, encode_utf8(text))] + after;
    let place = before.len() as int;
    if is_last_said(fields, code, value) {
        assert(fields[place] == (code, encode_utf8(text)));
        let said = value->0@;
        let i = choose|i: int| #[trigger]
            is_last_of(fields, code, i) && is_text_of(fields[i].1, said);
        if i > place {
            assert(fields[i] == after[i - place - 1]);
        }
        assert(i == place);
        encode_utf8_valid_utf8(text);
        encode_utf8_decode_utf8(text);
        encode_utf8_decode_utf8(said);
    }
}

/// Setting a field sets the one of its code and leaves the other ones as they are;
/// a code that no field has changes nothing.
pub proof fn law_set_field_sets_one(fields: &mut ErrorFields, code: u8, text: String, done: ())
    requires
        call_ensures(ErrorFields::set_field, (fields, code, text), done),
    ensures
        final(fields).severity == if code == 0x53 { Some(text) } else { old(fields).severity },
        final(fields).code == if code == 0x43 { Some(text) } else { old(fields).code },
        final(fields).message == if code == 0x4d { Some(text) } else { old(fields).message },
        final(fields).detail == if code == 0x44 { Some(text) } else { old(fields).detail },
        final(fields).hint == if code == 0x48 { Some(text) } else { old(fields).hint },
        final(fields).position == if code == 0x50 { Some(text) } else { old(fields).position },
        final(fields).where_ == if code == 0x57 { Some(text) } else { old(fields).where_ },
        final(fields).schema == if code == 0x73 { Some(text) } else { old(fields).schema },
        final(fields).table == if code == 0x74 { Some(text) } else { old(fields).table },
        final(fields).column == if code == 0x63 { Some(text) } else { old(fields).column },
        final(fields).data_type == if code == 0x64 { Some(text) } else { old(fields).data_type },
        final(fields).constraint == if code == 0x6e { Some(text) } else { old(fields).constraint },
        final(fields).file == if code == 0x46 { Some(text) } else { old(fields).file },
        final(fields).line == if code == 0x4c { Some(text) } else { old(fields).line },
        final(fields).routine == if code == 0x52 { Some(text) } else { old(fields).routine },
{
}

/// A response that carries no field at all gives the default.
pub proof fn law_empty_response_is_default(payload: &[u8], read: ErrorFields, default: ErrorFields)
    requires
        call_ensures(ErrorFields::parse, (payload,), read),
        call_ensures(ErrorFields::default, (), default),
        ends_response(payload@),
    ensures
        read == default,
        default.severity is None,
        default.code is None,
        default.message is None,
        default.detail is None,
        default.hint is None,
        default.position is None,
        default.where_ is None,
        default.schema is None,
        default.table is None,
        default.column is None,
        default.data_type is None,
        default.constraint is None,
        default.file is None,
        default.line is None,
        default.routine is None,
{
    assert(fields_bytes(seq![]) + payload@ =~= payload@);
    law_parse_holds_what_was_sent(payload, read, seq![], payload@);
}

/// With a message, the error string starts with the whole message, however long it
/// is; behind it stands the whole SQLSTATE in its brackets, or nothing where there
/// is none.
pub proof fn law_error_string_starts_with_message(
    fields: &ErrorFields,
    text: String,
    message: String,
)
    requires
        call_ensures(ErrorFields::to_error_string, (fields,), text),
        fields.message == Some(message),
    ensures
        text@.len() >= message@.len(),
        text@.take(message@.len() as int) == message@,
        fields.code matches Some(code) ==> text@.skip(message@.len() as int) == " (SQLSTATE "@
            + code@ + ")"@,
        fields.code is None ==> text@ == message@,
{
    let rest = match fields.code {
        Some(code) => " (SQLSTATE "@ + code@ + ")"@,
        None => seq![],
    };
    assert(text@ =~= message@ + rest);
    assert(text@.take(message@.len() as int) =~= message@);
    assert(text@.skip(message@.len() as int) =~= rest);
}

/// Without a message, the error string says so in words of its own, with the whole
/// SQLSTATE in brackets where there is one.
pub proof fn law_error_string_without_message(fields: &ErrorFields, text: String)
    requires
        call_ensures(ErrorFields::to_error_string, (fields,), text),
        fields.message is None,
    ensures
        fields.code matches Some(code) ==> text@ == "error (SQLSTATE "@ + code@ + ")"@,
        fields.code is None ==> text@ == "unknown server error"@,
{
}

/// Two responses with the same SQLSTATE and any messages get the same ending, and
/// two with the same message the same beginning; no other field shows.
pub proof fn law_error_string_is_message_and_code(
    one: &ErrorFields,
    two: &ErrorFields,
    text: String,
    other: String,
    message: String,
    other_message: String,
)
    requires
        call_ensures(ErrorFields::to_error_string, (one,), text),
        call_ensures(ErrorFields::to_error_string, (two,), other),
        one.message == Some(message),
        two.message == Some(other_message),
        one.code == two.code,
    ensures
        text@.skip(message@.len() as int) == other@.skip(other_message@.len() as int),
        text@ == other@ <==> message@ == other_message@,
{
    law_error_string_starts_with_message(one, text, message);
    law_error_string_starts_with_message(two, other, other_message);
    assert(text@ =~= text@.take(message@.len() as int) + text@.skip(message@.len() as int));
    assert(other@ =~= other@.take(other_message@.len() as int) + other@.skip(
        other_message@.len() as int,
    ));
    if text@ == other@ {
        assert(message@.len() == other_message@.len());
    }
}

/// The text of a response is the error string of its fields.
pub proof fn law_response_text_is_error_string(
    payload: &[u8],
    read: ErrorFields,
    text: String,
    response: String,
)
    requires
        call_ensures(ErrorFields::parse, (payload,), read),
        call_ensures(ErrorFields::to_error_string, (&read,), text),
        call_ensures(parse_error_response, (payload,), response),
    ensures
        response@ == text@,
{
}

/// The text of a response that carries a message starts with that whole message,
/// whatever else the response carries; and the text of one that also carries a
/// SQLSTATE ends with that.
pub proof fn law_response_text_starts_with_message(
    payload: &[u8],
    response: String,
    fields: Seq<FieldView>,
    rest: Seq<u8>,
    at: int,
    message: Seq<char>,
    code_at: int,
    code: Seq<char>,
)
    requires
        call_ensures(parse_error_response, (payload,), response),
        payload@ == fields_bytes(fields) + rest,
        fit_response(fields),
        ends_response(rest),
        is_last_of(fields, 0x4d, at),
        fields[at].1 == encode_utf8(message),
    ensures
        response@.len() >= message.len(),
        response@.take(message.len() as int) == message,
        is_last_of(fields, 0x43, code_at) && fields[code_at].1 == encode_utf8(code)
            ==> response@.skip(message.len() as int) == " (SQLSTATE "@ + code + ")"@,
        (forall|i: int| 0 <= i < fields.len() ==> (#[trigger] fields[i]).0 != 0x43) ==> response@
            == message,
{
    lemma_fields_of(fields, rest);
    lemma_said_at(fields, 0x4d, at, message);
    lemma_last_said(fields, 0x43);
    if is_last_of(fields, 0x43, code_at) && fields[code_at].1 == encode_utf8(code) {
        lemma_said_at(fields, 0x43, code_at, code);
    }
    assert(response@.take(message.len() as int) =~= message);
    assert(is_last_of(fields, 0x43, code_at) && fields[code_at].1 == encode_utf8(code)
        ==> response@.skip(message.len() as int) =~= " (SQLSTATE "@ + code + ")"@);
}

proof fn lemma_said_at(fields: Seq<FieldView>, code: u8, at: int, text: Seq<char>)
    requires
        is_last_of(fields, code, at),
        fields[at].1 == encode_utf8(text),
    ensures
        field_text(fields, code) == Some(text),
{
    lemma_last_said(fields, code);
    assert(fields[at].0 == code);
    let said = field_text(fields, code)->0;
    let i = choose|i: int| #[trigger]
        is_last_of(fields, code, i) && is_text_of(fields[i].1, said);
    assert(i == at);
    encode_utf8_valid_utf8(text);
    encode_utf8_decode_utf8(text);
    encode_utf8_decode_utf8(said);
}

} // verus!
