use kafkatopic_splitter::error::RoutingError;
use kafkatopic_splitter::json::routing_field;
use kafkatopic_splitter::router::{destination_topic, route, routing_key, MAX_ROUTING_KEY};
use kafkatopic_splitter::text::decode;

#[test]
fn routes_year_to_prefixed_topic() {
    let payload = br#"{"payload":{"YEAR":2024}}"#;
    assert_eq!(route("orders.", payload), Ok(String::from("orders.2024")));
}

#[test]
fn missing_year_is_missing_field() {
    let payload = br#"{"payload":{}}"#;
    assert_eq!(route("orders.", payload), Err(RoutingError::MissingField));
}

#[test]
fn invalid_utf8_is_invalid_encoding() {
    let payload: [u8; 4] = [0x7b, 0xff, 0xfe, 0x7d];
    assert_eq!(route("orders.", &payload), Err(RoutingError::InvalidEncoding));
}

#[test]
fn truncated_utf8_sequence_is_invalid_encoding() {
    let mut payload = br#"{"payload":{"YEAR":2024},"name":""#.to_vec();
    payload.push(0xc3);
    assert_eq!(route("orders.", &payload), Err(RoutingError::InvalidEncoding));
}

#[test]
fn encoding_is_checked_before_json() {
    let payload: [u8; 3] = [b'n', b'o', 0x80];
    assert_eq!(route("p", &payload), Err(RoutingError::InvalidEncoding));
}

#[test]
fn text_that_does_not_parse_is_invalid_json() {
    assert_eq!(route("p", b"not json"), Err(RoutingError::InvalidJson));
    assert_eq!(route("p", b""), Err(RoutingError::InvalidJson));
    assert_eq!(route("p", br#"{"payload":{"YEAR":2024}"#), Err(RoutingError::InvalidJson));
    assert_eq!(route("p", br#"{"payload":{"YEAR":2024}} x"#), Err(RoutingError::InvalidJson));
    assert_eq!(route("p", br#"{"payload":{"YEAR":01}}"#), Err(RoutingError::InvalidJson));
}

#[test]
fn boundary_year_zero() {
    assert_eq!(route("t-", br#"{"payload":{"YEAR":0}}"#), Ok(String::from("t-0")));
}

#[test]
fn boundary_year_max() {
    assert_eq!(route("t-", br#"{"payload":{"YEAR":65535}}"#), Ok(String::from("t-65535")));
}

#[test]
fn year_above_max_is_missing_field() {
    assert_eq!(route("t-", br#"{"payload":{"YEAR":65536}}"#), Err(RoutingError::MissingField));
    assert_eq!(
        route("t-", br#"{"payload":{"YEAR":18446744073709551615}}"#),
        Err(RoutingError::MissingField)
    );
    assert_eq!(
        route("t-", br#"{"payload":{"YEAR":18446744073709551616}}"#),
        Err(RoutingError::MissingField)
    );
}

#[test]
fn negative_year_is_missing_field() {
    assert_eq!(route("t-", br#"{"payload":{"YEAR":-1}}"#), Err(RoutingError::MissingField));
    assert_eq!(route("t-", br#"{"payload":{"YEAR":-2024}}"#), Err(RoutingError::MissingField));
}

#[test]
fn year_of_wrong_type_is_missing_field() {
    assert_eq!(route("t-", br#"{"payload":{"YEAR":"2024"}}"#), Err(RoutingError::MissingField));
    assert_eq!(route("t-", br#"{"payload":{"YEAR":2024.0}}"#), Err(RoutingError::MissingField));
    assert_eq!(route("t-", br#"{"payload":{"YEAR":2024.5}}"#), Err(RoutingError::MissingField));
    assert_eq!(route("t-", br#"{"payload":{"YEAR":2e3}}"#), Err(RoutingError::MissingField));
    assert_eq!(route("t-", br#"{"payload":{"YEAR":null}}"#), Err(RoutingError::MissingField));
    assert_eq!(route("t-", br#"{"payload":{"YEAR":true}}"#), Err(RoutingError::MissingField));
    assert_eq!(route("t-", br#"{"payload":{"YEAR":[2024]}}"#), Err(RoutingError::MissingField));
    assert_eq!(
        route("t-", br#"{"payload":{"YEAR":{"YEAR":2024}}}"#),
        Err(RoutingError::MissingField)
    );
}

#[test]
fn payload_member_of_wrong_shape_is_missing_field() {
    assert_eq!(route("t-", br#"{}"#), Err(RoutingError::MissingField));
    assert_eq!(route("t-", br#"{"YEAR":2024}"#), Err(RoutingError::MissingField));
    assert_eq!(route("t-", br#"{"payload":null}"#), Err(RoutingError::MissingField));
    assert_eq!(route("t-", br#"{"payload":2024}"#), Err(RoutingError::MissingField));
    assert_eq!(route("t-", br#"{"payload":"YEAR"}"#), Err(RoutingError::MissingField));
    assert_eq!(route("t-", br#"{"payload":[2024]}"#), Err(RoutingError::MissingField));
    assert_eq!(route("t-", br#"{"Payload":{"YEAR":2024}}"#), Err(RoutingError::MissingField));
    assert_eq!(route("t-", br#"{"payload":{"year":2024}}"#), Err(RoutingError::MissingField));
}

#[test]
fn document_that_is_no_object_is_missing_field() {
    assert_eq!(route("t-", b"2024"), Err(RoutingError::MissingField));
    assert_eq!(route("t-", b"null"), Err(RoutingError::MissingField));
    assert_eq!(route("t-", br#""payload""#), Err(RoutingError::MissingField));
    assert_eq!(route("t-", b"[[2024]]"), Err(RoutingError::MissingField));
}

#[test]
fn extra_fields_do_not_change_the_route() {
    let plain = br#"{"payload":{"YEAR":1999}}"#;
    let rich = "{\"id\": 7, \"payload\": {\"NAME\": \"H\u{e4}user\", \"YEAR\": 1999, \
                \"nested\": {\"YEAR\": 5}}, \"YEAR\": 3, \"tags\": [1, 2]}";
    assert_eq!(route("x.", plain), Ok(String::from("x.1999")));
    assert_eq!(route("x.", rich.as_bytes()), Ok(String::from("x.1999")));
}

#[test]
fn whitespace_around_the_document_is_accepted() {
    let payload = b" \n\t{ \"payload\" : { \"YEAR\" : 7 } }\r\n";
    assert_eq!(route("y", payload), Ok(String::from("y7")));
}

#[test]
fn prefix_is_used_as_it_is() {
    let payload = br#"{"payload":{"YEAR":12}}"#;
    assert_eq!(route("", payload), Ok(String::from("12")));
    assert_eq!(route("a b/", payload), Ok(String::from("a b/12")));
    assert_eq!(route("onkostar.MELDUNG_EXPORT.", payload), Ok(String::from("onkostar.MELDUNG_EXPORT.12")));
    assert_eq!(route("gr\u{fc}n-", payload), Ok(String::from("gr\u{fc}n-12")));
}

#[test]
fn routing_twice_gives_the_same_topic() {
    let payload = br#"{"payload":{"YEAR":2031,"X":[1,2,3]}}"#.to_vec();
    let copy = payload.clone();
    let first = route("p.", &payload);
    let second = route("p.", &payload);
    let third = route("p.", &copy);
    assert_eq!(first, Ok(String::from("p.2031")));
    assert_eq!(first, second);
    assert_eq!(first, third);
    let bad = b"{".to_vec();
    assert_eq!(route("p.", &bad), route("p.", &bad));
    assert_eq!(route("p.", &bad), Err(RoutingError::InvalidJson));
}

#[test]
fn every_year_routes_to_its_decimal() {
    let mut year: u32 = 0;
    while year <= 65535 {
        let payload = format!("{{\"payload\":{{\"YEAR\":{}}}}}", year);
        assert_eq!(route("k.", payload.as_bytes()), Ok(format!("k.{}", year)));
        year += 1;
    }
}

#[test]
fn routing_key_checks_the_range() {
    assert_eq!(MAX_ROUTING_KEY, 65535);
    assert_eq!(routing_key(Some(0)), Ok(0));
    assert_eq!(routing_key(Some(2024)), Ok(2024));
    assert_eq!(routing_key(Some(65535)), Ok(65535));
    assert_eq!(routing_key(Some(65536)), Err(RoutingError::MissingField));
    assert_eq!(routing_key(Some(u64::MAX)), Err(RoutingError::MissingField));
    assert_eq!(routing_key(None), Err(RoutingError::MissingField));
}

#[test]
fn destination_topic_appends_decimal_key() {
    assert_eq!(destination_topic("t.", 0), "t.0");
    assert_eq!(destination_topic("t.", 9), "t.9");
    assert_eq!(destination_topic("t.", 10), "t.10");
    assert_eq!(destination_topic("t.", 1000), "t.1000");
    assert_eq!(destination_topic("", 65535), "65535");
}

#[test]
fn different_keys_have_different_topics() {
    let mut seen = std::collections::HashSet::new();
    let mut key: u32 = 0;
    while key <= 65535 {
        assert!(seen.insert(destination_topic("p", key as u16)));
        key += 1;
    }
    assert_eq!(seen.len(), 65536);
}

#[test]
fn routing_field_reads_payload_year() {
    assert_eq!(routing_field(r#"{"payload":{"YEAR":2024}}"#), Ok(Some(2024)));
    assert_eq!(routing_field(r#"{"payload":{"YEAR":70000}}"#), Ok(Some(70000)));
    assert_eq!(
        routing_field(r#"{"payload":{"YEAR":18446744073709551615}}"#),
        Ok(Some(u64::MAX))
    );
    assert_eq!(routing_field(r#"{"payload":{"YEAR":-3}}"#), Ok(None));
    assert_eq!(routing_field(r#"{"payload":{"MONTH":3}}"#), Ok(None));
    assert_eq!(routing_field(r#"{"other":{"YEAR":3}}"#), Ok(None));
    assert_eq!(routing_field(r#"{"YEAR":{"payload":3}}"#), Ok(None));
    assert_eq!(routing_field("[]"), Ok(None));
    assert_eq!(routing_field("{"), Err(RoutingError::InvalidJson));
    assert_eq!(routing_field(""), Err(RoutingError::InvalidJson));
}

#[test]
fn routing_field_takes_the_last_of_repeated_members() {
    assert_eq!(routing_field(r#"{"payload":{"YEAR":1,"YEAR":2}}"#), Ok(Some(2)));
    assert_eq!(
        routing_field(r#"{"payload":{"YEAR":1},"payload":{"YEAR":5}}"#),
        Ok(Some(5))
    );
    assert_eq!(routing_field(r#"{"payload":{"YEAR":1},"payload":{}}"#), Ok(None));
}

#[test]
fn decode_borrows_the_same_bytes() {
    let bytes = "J\u{e4}hr \u{20ac} \u{1f600}".as_bytes();
    let text = decode(bytes).unwrap();
    assert_eq!(text.as_bytes(), bytes);
    assert_eq!(text, "J\u{e4}hr \u{20ac} \u{1f600}");
    assert_eq!(decode(b""), Ok(""));
}

#[test]
fn decode_rejects_what_is_not_utf8() {
    assert_eq!(decode(&[0xff]), Err(RoutingError::InvalidEncoding));
    assert_eq!(decode(&[0xc0, 0x80]), Err(RoutingError::InvalidEncoding));
    assert_eq!(decode(&[0xed, 0xa0, 0x80]), Err(RoutingError::InvalidEncoding));
    assert_eq!(decode(&[0xf4, 0x90, 0x80, 0x80]), Err(RoutingError::InvalidEncoding));
    assert_eq!(decode(&[0xe2, 0x82]), Err(RoutingError::InvalidEncoding));
    assert_eq!(decode(&[b'a', 0x80]), Err(RoutingError::InvalidEncoding));
}
