use wschat::packets::packet_from_members;
use wschat::{from_json, to_json, DecodeError, PacketType};

fn message(s: &str) -> PacketType {
    PacketType::Message(s.to_string())
}

fn round_trip(p: PacketType) -> Result<PacketType, DecodeError> {
    from_json(&to_json(p))
}

#[test]
fn message_is_written_with_type_and_data() {
    assert_eq!(to_json(message("hi")), r#"{"type":"Message","data":"hi"}"#);
}

#[test]
fn error_is_written_with_code_and_text() {
    assert_eq!(
        to_json(PacketType::Error(7, "bad".to_string())),
        r#"{"type":"Error","data":[7,"bad"]}"#
    );
}

#[test]
fn text_is_escaped_when_written() {
    assert_eq!(
        to_json(message("a\"b\\c\n")),
        r#"{"type":"Message","data":"a\"b\\c\n"}"#
    );
}

#[test]
fn round_trip_message() {
    assert_eq!(round_trip(message("hello, world")), Ok(message("hello, world")));
}

#[test]
fn round_trip_empty_message() {
    assert_eq!(round_trip(message("")), Ok(message("")));
}

#[test]
fn round_trip_message_with_escapes_and_unicode() {
    let text = "quote \" slash \\ tab \t line \n snow \u{2603} nul \u{0}";
    assert_eq!(round_trip(message(text)), Ok(message(text)));
}

#[test]
fn round_trip_error_zero_and_empty() {
    assert_eq!(
        round_trip(PacketType::Error(0, String::new())),
        Ok(PacketType::Error(0, String::new()))
    );
}

#[test]
fn round_trip_error_largest_code() {
    assert_eq!(
        round_trip(PacketType::Error(u64::MAX, "overflow".to_string())),
        Ok(PacketType::Error(u64::MAX, "overflow".to_string()))
    );
}

#[test]
fn unknown_type_is_rejected() {
    assert_eq!(from_json(r#"{"type":"Bogus","data":"x"}"#), Err(DecodeError::UnknownType));
}

#[test]
fn invalid_text_is_rejected() {
    assert_eq!(from_json("not json at all"), Err(DecodeError::Syntax));
    assert_eq!(from_json(r#"{"type":"Message","data":"hi""#), Err(DecodeError::Syntax));
    assert_eq!(from_json(""), Err(DecodeError::Syntax));
}

#[test]
fn non_object_is_rejected() {
    assert_eq!(from_json(r#"["Message","hi"]"#), Err(DecodeError::Syntax));
}

#[test]
fn missing_field_is_rejected() {
    assert_eq!(from_json(r#"{"type":"Message"}"#), Err(DecodeError::MissingField));
    assert_eq!(from_json(r#"{"data":"hi"}"#), Err(DecodeError::MissingField));
}

#[test]
fn type_that_is_not_a_string_is_rejected() {
    assert_eq!(from_json(r#"{"type":3,"data":"hi"}"#), Err(DecodeError::UnknownType));
}

#[test]
fn wrong_data_is_rejected() {
    assert_eq!(from_json(r#"{"type":"Message","data":5}"#), Err(DecodeError::BadData));
    assert_eq!(from_json(r#"{"type":"Error","data":"x"}"#), Err(DecodeError::BadData));
    assert_eq!(from_json(r#"{"type":"Error","data":[-1,"x"]}"#), Err(DecodeError::BadData));
}

#[test]
fn members_in_any_order_and_spacing_are_read() {
    assert_eq!(from_json(r#" { "data" : "x" , "type" : "Message" } "#), Ok(message("x")));
    assert_eq!(
        from_json(r#"{"data":[12, "late"],"type":"Error"}"#),
        Ok(PacketType::Error(12, "late".to_string()))
    );
}

#[test]
fn escaped_text_is_unescaped_when_read() {
    assert_eq!(from_json(r#"{"type":"Message","data":"a\"bA"}"#), Ok(message("a\"bA")));
}

#[test]
fn packet_is_read_from_members() {
    let members = vec![
        ("data".to_string(), r#""hey""#.to_string()),
        ("type".to_string(), r#""Message""#.to_string()),
    ];
    assert_eq!(packet_from_members(&members), Ok(message("hey")));
}

#[test]
fn members_without_type_give_missing_field() {
    let members = vec![("data".to_string(), r#""hey""#.to_string())];
    assert_eq!(packet_from_members(&members), Err(DecodeError::MissingField));
}

#[test]
fn members_with_unknown_tag_give_unknown_type() {
    let members = vec![
        ("data".to_string(), r#""x""#.to_string()),
        ("type".to_string(), r#""Bogus""#.to_string()),
    ];
    assert_eq!(packet_from_members(&members), Err(DecodeError::UnknownType));
}
