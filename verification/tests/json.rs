use jupiter_swap_api_client::error::{DecodeError, ErrorKind};
use jupiter_swap_api_client::json::{
    clone_members, find_member, new_members, push_member, str_is, text_is, Json, Number,
};
use jupiter_swap_api_client::wire::{
    find_optional, find_required, read_bool, read_number, read_text, read_u16, read_u32, read_u64,
    read_u8,
};

fn sample() -> Json {
    let mut members = new_members();
    push_member(&mut members, "a", Json::unsigned(1));
    push_member(&mut members, "b", Json::Null);
    push_member(&mut members, "a", Json::unsigned(2));
    push_member(
        &mut members,
        "c",
        Json::Array(vec![Json::Bool(true), Json::string("x"), Json::Object(vec![])]),
    );
    Json::Object(members)
}

#[test]
fn get_finds_the_first_member_with_the_key() {
    let j = sample();
    assert_eq!(j.get("a"), Some(&Json::unsigned(1)));
    assert_eq!(j.get("b"), Some(&Json::Null));
    assert_eq!(j.get("d"), None);
    assert_eq!(j.get(""), None);
    assert_eq!(Json::unsigned(1).get("a"), None);
    assert_eq!(Json::Array(vec![]).get("a"), None);
}

#[test]
fn find_member_on_a_list_of_members() {
    let members = match sample() {
        Json::Object(members) => members,
        other => panic!("{:?}", other),
    };
    assert_eq!(find_member(&members, "a"), Some(&Json::unsigned(1)));
    assert_eq!(find_member(&members, "A"), None);
    assert_eq!(find_member(&new_members(), "a"), None);
}

#[test]
fn required_and_optional_members() {
    let members = match sample() {
        Json::Object(members) => members,
        other => panic!("{:?}", other),
    };
    assert_eq!(find_required(&members, "a"), Ok(&Json::unsigned(1)));
    assert_eq!(find_required(&members, "b"), Ok(&Json::Null));
    assert_eq!(
        find_required(&members, "zz"),
        Err(DecodeError { kind: ErrorKind::MissingField, field: "zz" })
    );
    assert_eq!(find_optional(&members, "a"), Some(&Json::unsigned(1)));
    assert_eq!(find_optional(&members, "b"), None);
    assert_eq!(find_optional(&members, "zz"), None);
}

#[test]
fn clone_is_a_deep_copy() {
    let j = sample();
    let copy = j.clone();
    assert_eq!(copy, j);
    let members = match j {
        Json::Object(members) => members,
        other => panic!("{:?}", other),
    };
    assert_eq!(clone_members(&members), members);
}

#[test]
fn text_comparisons() {
    assert!(text_is(&"auto".to_string(), "auto"));
    assert!(!text_is(&"auto".to_string(), "Auto"));
    assert!(!text_is(&"auto".to_string(), "aut"));
    assert!(str_is("", ""));
    assert!(!str_is("a", ""));
}

#[test]
fn numbers_of_each_width() {
    assert_eq!(read_u8(&Json::unsigned(255)), Ok(255));
    assert_eq!(read_u8(&Json::unsigned(256)), Err(ErrorKind::UnexpectedType));
    assert_eq!(read_u16(&Json::unsigned(65_535)), Ok(65_535));
    assert_eq!(read_u16(&Json::unsigned(65_536)), Err(ErrorKind::UnexpectedType));
    assert_eq!(read_u32(&Json::unsigned(4_294_967_295)), Ok(4_294_967_295));
    assert_eq!(read_u32(&Json::unsigned(4_294_967_296)), Err(ErrorKind::UnexpectedType));
    assert_eq!(read_u64(&Json::unsigned(u64::MAX)), Ok(u64::MAX));
    assert_eq!(read_u64(&Json::Number(Number::Negative(-1))), Err(ErrorKind::UnexpectedType));
    assert_eq!(
        read_u64(&Json::Number(Number::Binary64(1.0f64.to_bits()))),
        Err(ErrorKind::UnexpectedType)
    );
    assert_eq!(read_u64(&Json::string("1")), Err(ErrorKind::UnexpectedType));
    assert_eq!(read_number(&Json::Number(Number::Negative(-1))), Ok(Number::Negative(-1)));
    assert_eq!(read_number(&Json::Null), Err(ErrorKind::UnexpectedType));
}

#[test]
fn booleans_and_texts() {
    assert_eq!(read_bool(&Json::Bool(true)), Ok(true));
    assert_eq!(read_bool(&Json::unsigned(1)), Err(ErrorKind::UnexpectedType));
    assert_eq!(read_bool(&Json::string("true")), Err(ErrorKind::UnexpectedType));
    assert_eq!(read_text(&Json::string("héllo")), Ok("héllo".to_string()));
    assert_eq!(read_text(&Json::Bool(true)), Err(ErrorKind::UnexpectedType));
}

#[test]
fn error_messages_name_the_reason_and_the_field() {
    assert_eq!(DecodeError::new(ErrorKind::MissingField).message(), "missing field");
    assert_eq!(
        DecodeError::new(ErrorKind::MalformedAmount).in_field("inAmount").message(),
        "malformed 64-bit amount in field inAmount"
    );
    let inner = DecodeError { kind: ErrorKind::MalformedIdentifier, field: "feeMint" };
    assert_eq!(inner.in_field("routePlan"), inner);
    assert_eq!(inner.message(), "malformed account or asset identifier in field feeMint");
    assert_eq!(
        DecodeError::new(ErrorKind::UnrecognizedShape).message(),
        "unrecognized representation of a union value"
    );
    assert_eq!(
        DecodeError::new(ErrorKind::UnrecognizedVariant).message(),
        "unrecognized enum value"
    );
    assert_eq!(
        DecodeError::new(ErrorKind::UnexpectedType).message(),
        "value of an unexpected type or range"
    );
    assert_eq!(DecodeError::new(ErrorKind::MalformedDecimal).message(), "malformed decimal number");
}
