use es_sink::encoder::{encode_event, maybe_set_id, split_key, unflatten};
use es_sink::event::{Event, Timestamp, Value};
use es_sink::json::JsonValue;
use es_sink::template::Template;

fn noon() -> Timestamp {
    Timestamp::new(2019, 5, 1, 12, 34, 56, 0).unwrap()
}

fn text(s: &str) -> Value {
    Value::Text(s.to_string())
}

fn object(members: Vec<(&str, JsonValue)>) -> JsonValue {
    JsonValue::Object(members.into_iter().map(|(k, v)| (k.to_string(), v)).collect())
}

fn lines(bytes: &[u8]) -> Vec<serde_json::Value> {
    let body = std::str::from_utf8(bytes).unwrap();
    assert!(body.ends_with('\n'));
    body.lines().map(|line| serde_json::from_str(line).unwrap()).collect()
}

#[test]
fn sets_id_from_custom_field() {
    let id_key = Some("foo");
    let mut event = Event::from_message("butts", noon());
    event.insert_explicit("foo".into(), text("bar"));
    let mut action = JsonValue::object();

    maybe_set_id(id_key, &mut action, &event);

    assert_eq!(object(vec![("_id", JsonValue::text("bar"))]), action);
}

#[test]
fn doesnt_set_id_when_field_missing() {
    let id_key = Some("foo");
    let mut event = Event::from_message("butts", noon());
    event.insert_explicit("not_foo".into(), text("bar"));
    let mut action = JsonValue::object();

    maybe_set_id(id_key, &mut action, &event);

    assert_eq!(JsonValue::object(), action);
}

#[test]
fn doesnt_set_id_when_not_configured() {
    let id_key: Option<&str> = None;
    let mut event = Event::from_message("butts", noon());
    event.insert_explicit("foo".into(), text("bar"));
    let mut action = JsonValue::object();

    maybe_set_id(id_key, &mut action, &event);

    assert_eq!(JsonValue::object(), action);
}

#[test]
fn set_id_replaces_an_identifier_already_there() {
    let mut event = Event::new();
    event.insert_explicit("foo".into(), Value::Integer(-42));
    let mut action = object(vec![("_id", JsonValue::text("old")), ("_type", JsonValue::text("t"))]);

    maybe_set_id(Some("foo"), &mut action, &event);

    assert_eq!(
        object(vec![("_id", JsonValue::text("-42")), ("_type", JsonValue::text("t"))]),
        action
    );
}

#[test]
fn encodes_action_and_document_as_two_lines() {
    let mut event = Event::from_message("raw log line", noon());
    event.insert_explicit("my_id".into(), text("42"));
    event.insert_explicit("foo".into(), text("bar"));
    let index = Template::new("vector-%Y.%m.%d");

    let bytes = encode_event(&event, &index, "_doc", &Some("my_id".to_string())).unwrap();

    let expected = concat_lines(&[
        r#"{"index":{"_index":"vector-2019.05.01","_type":"_doc","_id":"42"}}"#,
        r#"{"message":"raw log line","timestamp":"2019-05-01T12:34:56Z","my_id":"42","foo":"bar"}"#,
    ]);
    assert_eq!(expected, String::from_utf8(bytes).unwrap());
}

fn concat_lines(lines: &[&str]) -> String {
    let mut out = String::new();
    for line in lines {
        out.push_str(line);
        out.push('\n');
    }
    out
}

#[test]
fn encoded_lines_parse_back_to_action_and_document() {
    let mut event = Event::from_message("say \"hi\"\n\ttab \\ é ☃", noon());
    event.insert_explicit("my_id".into(), Value::Integer(7));
    event.insert_explicit("host.name".into(), text("web-1"));
    event.insert_explicit("host.up".into(), Value::Boolean(true));
    event.insert_explicit("bytes".into(), Value::Integer(i64::MIN));
    let index = Template::new("logs-{host.name}");

    let bytes = encode_event(&event, &index, "log_lines", &Some("my_id".to_string())).unwrap();
    let parsed = lines(&bytes);

    assert_eq!(2, parsed.len());
    let action: serde_json::Value = serde_json::from_str(
        r#"{"index":{"_index":"logs-web-1","_type":"log_lines","_id":"7"}}"#,
    )
    .unwrap();
    assert_eq!(action, parsed[0]);
    let mut host = serde_json::Map::new();
    host.insert("name".into(), serde_json::Value::from("web-1"));
    host.insert("up".into(), serde_json::Value::from(true));
    let mut document = serde_json::Map::new();
    document.insert("message".into(), serde_json::Value::from("say \"hi\"\n\ttab \\ é ☃"));
    document.insert("timestamp".into(), serde_json::Value::from("2019-05-01T12:34:56Z"));
    document.insert("my_id".into(), serde_json::Value::from(7));
    document.insert("host".into(), serde_json::Value::Object(host));
    document.insert("bytes".into(), serde_json::Value::from(i64::MIN));
    assert_eq!(serde_json::Value::Object(document), parsed[1]);
}

#[test]
fn action_has_no_identifier_when_field_is_absent_or_unconfigured() {
    let event = Event::from_message("line", noon());
    let index = Template::new("idx");

    let absent = encode_event(&event, &index, "_doc", &Some("my_id".to_string())).unwrap();
    let unconfigured = encode_event(&event, &index, "_doc", &None).unwrap();

    let expected: serde_json::Value =
        serde_json::from_str(r#"{"index":{"_index":"idx","_type":"_doc"}}"#).unwrap();
    assert_eq!(expected, lines(&absent)[0]);
    assert_eq!(expected, lines(&unconfigured)[0]);
    assert_eq!(absent, unconfigured);
}

#[test]
fn identifier_is_the_text_form_of_the_field() {
    let index = Template::new("idx");
    let mut event = Event::new();
    event.insert_explicit("id".into(), Value::Timestamp(Timestamp::new(2020, 2, 29, 0, 0, 9, 5).unwrap()));
    let bytes = encode_event(&event, &index, "_doc", &Some("id".to_string())).unwrap();
    assert_eq!(
        serde_json::Value::from("2020-02-29T00:00:09.000000005Z"),
        lines(&bytes)[0]["index"]["_id"]
    );

    let mut event = Event::new();
    event.insert_explicit("id".into(), Value::Boolean(false));
    let bytes = encode_event(&event, &index, "_doc", &Some("id".to_string())).unwrap();
    assert_eq!(serde_json::Value::from("false"), lines(&bytes)[0]["index"]["_id"]);
}

#[test]
fn encode_fails_with_the_missing_fields() {
    let event = Event::from_message("line", noon());
    let index = Template::new("{app}-{env}-%Y");

    match encode_event(&event, &index, "_doc", &None) {
        Err(missing) => {
            assert_eq!(vec!["app".to_string(), "env".to_string()], missing.names);
        }
        other => panic!("unexpected: {:?}", other),
    }
}

#[test]
fn split_key_keeps_empty_parts() {
    assert_eq!(vec!["a".to_string(), "b".to_string(), "c".to_string()], split_key("a.b.c"));
    assert_eq!(vec!["plain".to_string()], split_key("plain"));
    assert_eq!(vec!["".to_string()], split_key(""));
    assert_eq!(vec!["".to_string(), "x".to_string(), "".to_string(), "".to_string()], split_key(".x.."));
    assert_eq!(vec!["é".to_string(), "☃".to_string()], split_key("é.☃"));
}

#[test]
fn unflatten_nests_dotted_names() {
    let mut event = Event::new();
    event.insert_explicit("a.b.c".into(), Value::Integer(1));
    event.insert_explicit("a.b.d".into(), Value::Integer(2));
    event.insert_explicit("a.e".into(), text("x"));
    event.insert_explicit("f".into(), Value::Boolean(true));

    let expected = object(vec![
        (
            "a",
            object(vec![
                ("b", object(vec![("c", JsonValue::Number(1)), ("d", JsonValue::Number(2))])),
                ("e", JsonValue::text("x")),
            ]),
        ),
        ("f", JsonValue::Bool(true)),
    ]);
    assert_eq!(expected, unflatten(&event));
}

#[test]
fn unflatten_lets_the_later_field_win() {
    let mut event = Event::new();
    event.insert_explicit("a".into(), Value::Integer(1));
    event.insert_explicit("a.b".into(), Value::Integer(2));
    assert_eq!(object(vec![("a", object(vec![("b", JsonValue::Number(2))]))]), unflatten(&event));

    let mut event = Event::new();
    event.insert_explicit("a.b".into(), Value::Integer(2));
    event.insert_explicit("a".into(), Value::Integer(1));
    assert_eq!(object(vec![("a", JsonValue::Number(1))]), unflatten(&event));
}

#[test]
fn unflatten_of_an_event_without_fields_is_empty() {
    assert_eq!(JsonValue::object(), unflatten(&Event::new()));
}

#[test]
fn json_text_quotes_and_escapes_strings() {
    assert_eq!("\"a\\\"b\\\\c\\n\"", JsonValue::text("a\"b\\c\n").to_text());
    assert_eq!("\"\"", JsonValue::text("").to_text());
    assert_eq!("-9223372036854775808", JsonValue::Number(i64::MIN).to_text());
    assert_eq!("0", JsonValue::Number(0).to_text());
    assert_eq!("true", JsonValue::Bool(true).to_text());
    assert_eq!("{}", JsonValue::object().to_text());
    assert_eq!(
        "{\"k\":{\"n\":10,\"b\":false},\"s\":\"v\"}",
        object(vec![
            ("k", object(vec![("n", JsonValue::Number(10)), ("b", JsonValue::Bool(false))])),
            ("s", JsonValue::text("v")),
        ])
        .to_text()
    );
}

fn as_serde(value: &JsonValue) -> serde_json::Value {
    match value {
        JsonValue::Bool(b) => serde_json::Value::Bool(*b),
        JsonValue::Number(n) => serde_json::Value::from(*n),
        JsonValue::Text(s) => serde_json::Value::String(s.clone()),
        JsonValue::Object(members) => serde_json::Value::Object(
            members.iter().map(|(k, v)| (k.clone(), as_serde(v))).collect(),
        ),
    }
}

#[test]
fn json_text_is_what_the_serializer_writes_for_the_same_value() {
    let values = vec![
        JsonValue::Bool(false),
        JsonValue::Number(-17),
        JsonValue::Number(i64::MAX),
        JsonValue::text("plain"),
        JsonValue::text("\u{0}\u{1f}\u{7f} \"quoted\" \\ / \u{2028} é 😀"),
        JsonValue::object(),
        object(vec![
            ("a", JsonValue::Number(1)),
            ("b \"x\"", object(vec![("c", JsonValue::text("d")), ("e", JsonValue::object())])),
            ("z", JsonValue::Bool(true)),
        ]),
    ];
    for value in values {
        assert_eq!(serde_json::to_string(&as_serde(&value)).unwrap(), value.to_text());
    }
}

#[test]
fn encoded_document_ends_each_line_with_a_line_feed() {
    let event = Event::from_message("line", noon());
    let bytes = encode_event(&event, &Template::new("idx"), "_doc", &None).unwrap();
    assert_eq!(2, bytes.iter().filter(|b| **b == b'\n').count());
    assert_eq!(Some(&b'\n'), bytes.last());
}

#[test]
fn document_that_is_no_object_is_left_alone_when_no_identifier_applies() {
    let mut event = Event::from_message("butts", noon());
    event.insert_explicit("foo".into(), text("bar"));

    let mut doc = JsonValue::text("not an object");
    maybe_set_id(None, &mut doc, &event);
    assert_eq!(JsonValue::text("not an object"), doc);

    let mut doc = JsonValue::Number(7);
    maybe_set_id(Some("not_foo"), &mut doc, &event);
    assert_eq!(JsonValue::Number(7), doc);

    let mut doc = JsonValue::Bool(true);
    maybe_set_id(Some(""), &mut doc, &event);
    assert_eq!(JsonValue::Bool(true), doc);
}

#[test]
fn absent_identifier_adds_no_member_of_any_kind() {
    let event = Event::from_message("butts", noon());
    let mut doc = object(vec![("_index", JsonValue::text("idx"))]);
    maybe_set_id(Some("foo"), &mut doc, &event);
    assert_eq!(object(vec![("_index", JsonValue::text("idx"))]), doc);
    assert_eq!("{\"_index\":\"idx\"}", doc.to_text());
}
