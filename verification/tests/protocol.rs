use pgwire_replication::error::PgWireError;
use pgwire_replication::lsn::Lsn;
use pgwire_replication::protocol::messages::{
    checked_timeline, parse_auth_request, parse_data_row, parse_error_response, ErrorFields,
    ServerIdentity,
};

fn row(columns: &[Option<&[u8]>]) -> Vec<u8> {
    let mut payload = (columns.len() as i16).to_be_bytes().to_vec();
    for column in columns {
        match column {
            Some(value) => {
                payload.extend_from_slice(&(value.len() as i32).to_be_bytes());
                payload.extend_from_slice(value);
            }
            None => payload.extend_from_slice(&(-1i32).to_be_bytes()),
        }
    }
    payload
}

/// The text of a protocol error; no other error will do.
fn protocol_text(e: PgWireError) -> String {
    match e {
        PgWireError::Protocol(text) => text,
        other => panic!("expected a protocol error, got {other:?}"),
    }
}

fn identity_error(columns: &[Option<&[u8]>]) -> String {
    protocol_text(ServerIdentity::from_data_row(&row(columns)).unwrap_err())
}

#[test]
fn data_row_is_read_back() {
    let columns: [Option<&[u8]>; 4] = [Some(b"a"), None, Some(b""), Some(b"\x00\xff")];
    let mut payload = row(&columns);
    assert_eq!(parse_data_row(&payload).unwrap(), columns.to_vec());
    payload.extend_from_slice(b"whatever follows");
    assert_eq!(parse_data_row(&payload).unwrap(), columns.to_vec());
}

#[test]
fn data_row_refuses_every_truncation() {
    let payload = row(&[Some(b"abc"), None, Some(b""), Some(b"z")]);
    for kept in 0..payload.len() {
        assert_eq!(
            protocol_text(parse_data_row(&payload[..kept]).unwrap_err()),
            "data row truncated"
        );
    }
}

#[test]
fn data_row_with_negative_count_has_no_columns() {
    assert!(parse_data_row(&[0xff, 0xff]).unwrap().is_empty());
    assert!(parse_data_row(&[0x80, 0x00, 1, 2]).unwrap().is_empty());
    assert!(parse_data_row(&[0, 0]).unwrap().is_empty());
}

#[test]
fn data_row_takes_any_negative_length_for_null() {
    let payload = [0, 2, 0x80, 0, 0, 0, 0, 0, 0, 1, b'x'];
    let expected: Vec<Option<&[u8]>> = vec![None, Some(b"x")];
    assert_eq!(parse_data_row(&payload).unwrap(), expected);
}

#[test]
fn data_row_count_uses_both_bytes() {
    let columns: Vec<Option<&[u8]>> = vec![None; 300];
    assert_eq!(parse_data_row(&row(&columns)).unwrap().len(), 300);
}

#[test]
fn auth_request_keeps_sign_and_data() {
    let (code, data) = parse_auth_request(&[0xff, 0xff, 0xff, 0xfe, 7, 0, 9]).unwrap();
    assert_eq!(code, -2);
    assert_eq!(data, &[7, 0, 9]);
    let (code, data) = parse_auth_request(&[0x01, 0x02, 0x03, 0x04]).unwrap();
    assert_eq!(code, 0x0102_0304);
    assert!(data.is_empty());
    assert_eq!(
        protocol_text(parse_auth_request(&[]).unwrap_err()),
        "auth request too short"
    );
}

#[test]
fn every_field_code_sets_its_field() {
    let codes = b"SCMDHPWstcdnFLR";
    let mut payload = Vec::new();
    for code in codes {
        payload.push(*code);
        payload.push(*code);
        payload.extend_from_slice(b"!\0");
    }
    let fields = ErrorFields::parse(&payload);
    assert_eq!(fields.severity.as_deref(), Some("S!"));
    assert_eq!(fields.code.as_deref(), Some("C!"));
    assert_eq!(fields.message.as_deref(), Some("M!"));
    assert_eq!(fields.detail.as_deref(), Some("D!"));
    assert_eq!(fields.hint.as_deref(), Some("H!"));
    assert_eq!(fields.position.as_deref(), Some("P!"));
    assert_eq!(fields.where_.as_deref(), Some("W!"));
    assert_eq!(fields.schema.as_deref(), Some("s!"));
    assert_eq!(fields.table.as_deref(), Some("t!"));
    assert_eq!(fields.column.as_deref(), Some("c!"));
    assert_eq!(fields.data_type.as_deref(), Some("d!"));
    assert_eq!(fields.constraint.as_deref(), Some("n!"));
    assert_eq!(fields.file.as_deref(), Some("F!"));
    assert_eq!(fields.line.as_deref(), Some("L!"));
    assert_eq!(fields.routine.as_deref(), Some("R!"));
}

#[test]
fn last_field_of_a_code_counts() {
    let fields = ErrorFields::parse(b"Mfirst\0Cone\0Msecond\0\0");
    assert_eq!(fields.message.as_deref(), Some("second"));
    assert_eq!(fields.code.as_deref(), Some("one"));
}

#[test]
fn nothing_behind_the_final_zero_is_read() {
    let fields = ErrorFields::parse(b"Mshown\0\0Chidden\0");
    assert_eq!(fields.message.as_deref(), Some("shown"));
    assert!(fields.code.is_none());
}

#[test]
fn unfinished_field_keeps_those_before_it() {
    let fields = ErrorFields::parse(b"Mwhole\0Chalf");
    assert_eq!(fields.message.as_deref(), Some("whole"));
    assert!(fields.code.is_none());
    assert_eq!(ErrorFields::parse(b"M"), ErrorFields::default());
}

#[test]
fn unknown_field_changes_nothing() {
    assert_eq!(
        ErrorFields::parse(b"Ma\0Zb\0Cc\0\0"),
        ErrorFields::parse(b"Ma\0Cc\0\0")
    );
}

#[test]
fn field_may_be_empty() {
    assert_eq!(ErrorFields::parse(b"M\0\0").message.as_deref(), Some(""));
}

#[test]
fn field_text_is_decoded_and_repaired() {
    let fields = ErrorFields::parse("M\u{fc}ber\0\0".as_bytes());
    assert_eq!(fields.message.as_deref(), Some("\u{fc}ber"));
    let fields = ErrorFields::parse(b"Ma\xffb\0\0");
    assert_eq!(fields.message.as_deref(), Some("a\u{fffd}b"));
}

#[test]
fn set_field_goes_by_the_code() {
    let mut fields = ErrorFields::default();
    fields.set_field(b'H', "hint".to_string());
    fields.set_field(b'?', "lost".to_string());
    assert_eq!(fields.hint.as_deref(), Some("hint"));
    fields.hint = None;
    assert_eq!(fields, ErrorFields::default());
}

#[test]
fn error_string_shows_message_and_code() {
    assert_eq!(
        parse_error_response(b"C12345\0Mhello\0\0"),
        "hello (SQLSTATE 12345)"
    );
}

#[test]
fn identity_is_read_back() {
    for position in [0, 1, 0x16B3748, 0xFFFF_FFFF, 0x1_0000_0000, u64::MAX] {
        let lsn = Lsn(position);
        let text = lsn.to_string();
        let payload = row(&[
            Some(b"7412345678901234567"),
            Some(b"4294967295"),
            Some(text.as_bytes()),
            Some("d\u{e9}p\u{f4}t".as_bytes()),
        ]);
        let identity = ServerIdentity::from_data_row(&payload).unwrap();
        assert_eq!(identity.system_id, "7412345678901234567");
        assert_eq!(identity.timeline, u32::MAX);
        assert_eq!(identity.xlog_pos, lsn);
        assert_eq!(identity.dbname.as_deref(), Some("d\u{e9}p\u{f4}t"));
    }
}

#[test]
fn timeline_may_have_a_plus_and_zeros() {
    let payload = row(&[Some(b"1"), Some(b"+007"), Some(b"0/0"), None]);
    assert_eq!(ServerIdentity::from_data_row(&payload).unwrap().timeline, 7);
}

#[test]
fn identity_errors_name_what_is_wrong() {
    let one: Option<&[u8]> = Some(b"1");
    let zero: Option<&[u8]> = Some(b"0/0");
    let bad: Option<&[u8]> = Some(b"\xff");
    assert_eq!(
        protocol_text(ServerIdentity::from_data_row(&[0]).unwrap_err()),
        "data row truncated"
    );
    assert_eq!(
        identity_error(&[one, one, zero]),
        "IDENTIFY_SYSTEM returned 3 columns, expected 4"
    );
    assert_eq!(
        identity_error(&[one; 12]),
        "IDENTIFY_SYSTEM returned 12 columns, expected 4"
    );
    assert_eq!(
        identity_error(&[one, None, zero, None]),
        "IDENTIFY_SYSTEM timeline is null"
    );
    assert_eq!(
        identity_error(&[one, bad, zero, None]),
        "IDENTIFY_SYSTEM timeline is not UTF-8"
    );
    assert_eq!(
        identity_error(&[one, one, None, None]),
        "IDENTIFY_SYSTEM xlogpos is null"
    );
    assert_eq!(
        identity_error(&[one, one, bad, None]),
        "IDENTIFY_SYSTEM xlogpos is not UTF-8"
    );
    assert_eq!(
        identity_error(&[one, one, Some(b"16B3748"), None]),
        "invalid IDENTIFY_SYSTEM xlogpos: invalid LSN: 16B3748"
    );
    assert_eq!(
        identity_error(&[one, one, zero, bad]),
        "IDENTIFY_SYSTEM dbname is not UTF-8"
    );
    assert_eq!(
        identity_error(&[None, one, zero, None]),
        "IDENTIFY_SYSTEM systemid is null"
    );
    assert_eq!(
        identity_error(&[bad, one, zero, None]),
        "IDENTIFY_SYSTEM systemid is not UTF-8"
    );
}

#[test]
fn identity_reports_the_timeline_first() {
    assert_eq!(
        identity_error(&[None, None, None, Some(b"\xff")]),
        "IDENTIFY_SYSTEM timeline is null"
    );
    assert_eq!(
        identity_error(&[None, Some(b"1"), Some(b"0/0"), Some(b"\xff")]),
        "IDENTIFY_SYSTEM dbname is not UTF-8"
    );
}

#[test]
fn timeline_errors_carry_the_complaint() {
    for text in ["", "x", "-1", " 1", "1 ", "+", "4294967296", "99999999999x"] {
        let complaint = text.parse::<u32>().unwrap_err().to_string();
        let expected = format!("invalid IDENTIFY_SYSTEM timeline: {complaint}");
        assert_eq!(
            identity_error(&[Some(b"1"), Some(text.as_bytes()), Some(b"0/0"), None]),
            expected
        );
    }
    assert_eq!(
        identity_error(&[Some(b"1"), Some(b"one"), Some(b"0/0"), None]),
        "invalid IDENTIFY_SYSTEM timeline: invalid digit found in string"
    );
}

#[test]
fn checked_timeline_takes_either_result() {
    assert_eq!(checked_timeline(Ok(3)).unwrap(), 3);
    assert_eq!(
        protocol_text(checked_timeline(Err("no".to_string())).unwrap_err()),
        "invalid IDENTIFY_SYSTEM timeline: no"
    );
}

#[test]
fn lsn_is_read_and_written() {
    assert_eq!(Lsn::parse("0/16B3748").unwrap(), Lsn(0x16B3748));
    assert_eq!(Lsn::parse("0/16b3748").unwrap(), Lsn(0x16B3748));
    assert_eq!(Lsn::parse("A/0000000F").unwrap(), Lsn(0xA_0000_000F));
    assert_eq!(Lsn::parse("FFFFFFFF/FFFFFFFF").unwrap(), Lsn(u64::MAX));
    assert_eq!(Lsn(0x16B3748).to_string(), "0/16B3748");
    assert_eq!(Lsn(0xA_0000_000F).to_string(), "A/F");
    assert_eq!(Lsn(u64::MAX).to_string(), "FFFFFFFF/FFFFFFFF");
}

#[test]
fn lsn_refuses_other_texts() {
    for text in [
        "", "/", "0", "0/", "/0", "0/0/0", "0/G", "G/0", " 0/0", "+0/0", "000000000/0",
        "0/000000000", "\u{660}/0", "0/\u{e9}",
    ] {
        assert_eq!(
            protocol_text(Lsn::parse(text).unwrap_err()),
            format!("invalid LSN: {text}")
        );
    }
}
