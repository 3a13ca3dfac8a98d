use es_sink::event::{Event, Timestamp, Value};
use es_sink::template::Template;

fn at(year: u16, month: u8, day: u8, hour: u8, minute: u8, second: u8) -> Timestamp {
    Timestamp::new(year, month, day, hour, minute, second, 0).unwrap()
}

#[test]
fn literal_text_passes_through() {
    let event = Event::new();
    let rendered = Template::new("plain-name_1").resolve(&event).unwrap();
    assert_eq!("plain-name_1", rendered);
    assert_eq!("", Template::new("").resolve(&event).unwrap());
}

#[test]
fn time_directives_render_from_the_timestamp_field() {
    let event = Event::from_message("line", at(2019, 5, 1, 7, 8, 9));
    let rendered = Template::new("vector-%Y.%m.%d").resolve(&event).unwrap();
    assert_eq!("vector-2019.05.01", rendered);
    let rendered = Template::new("%H:%M:%S %Y").resolve(&event).unwrap();
    assert_eq!("07:08:09 2019", rendered);
}

#[test]
fn year_is_padded_to_four_digits() {
    let event = Event::from_message("line", at(33, 12, 31, 23, 59, 59));
    assert_eq!("0033/12/31", Template::new("%Y/%m/%d").resolve(&event).unwrap());
}

#[test]
fn field_directives_render_the_text_form() {
    let mut event = Event::from_message("line", at(2019, 5, 1, 0, 0, 0));
    event.insert_explicit("app".into(), Value::Text("web".into()));
    event.insert_explicit("shard".into(), Value::Integer(-3));
    event.insert_explicit("ok".into(), Value::Boolean(true));
    let rendered = Template::new("{app}-{shard}-{ok}-{timestamp}").resolve(&event).unwrap();
    assert_eq!("web--3-true-2019-05-01T00:00:00Z", rendered);
}

#[test]
fn resolved_names_hold_no_directive_of_the_pattern() {
    let mut event = Event::from_message("line", at(2024, 1, 2, 3, 4, 5));
    event.insert_explicit("a".into(), Value::Text("x".into()));
    let rendered = Template::new("{a}%Y{a}%m").resolve(&event).unwrap();
    assert_eq!("x2024x01", rendered);
    assert!(!rendered.contains('{') && !rendered.contains('%'));
}

#[test]
fn percent_and_braces_that_form_no_directive_are_literal() {
    let event = Event::from_message("line", at(2019, 5, 1, 0, 0, 0));
    assert_eq!("100%", Template::new("100%%").resolve(&event).unwrap());
    assert_eq!("%q%", Template::new("%q%").resolve(&event).unwrap());
    assert_eq!("{}", Template::new("{}").resolve(&event).unwrap());
    assert_eq!("{open", Template::new("{open").resolve(&event).unwrap());
    assert_eq!("close}", Template::new("close}").resolve(&event).unwrap());
    assert_eq!("{line", Template::new("{{message}").resolve(&event).unwrap());
}

#[test]
fn missing_fields_are_all_named_in_order() {
    let mut event = Event::new();
    event.insert_explicit("b".into(), Value::Text("x".into()));
    let error = Template::new("{a}-{b}-{c}-{a}").resolve(&event).unwrap_err();
    assert_eq!(vec!["a".to_string(), "c".to_string(), "a".to_string()], error.names);
}

#[test]
fn time_directive_without_a_time_names_the_timestamp_field() {
    let mut event = Event::new();
    event.insert_explicit("timestamp".into(), Value::Text("not a time".into()));
    let error = Template::new("vector-%Y").resolve(&event).unwrap_err();
    assert_eq!(vec!["timestamp".to_string()], error.names);
    let error = Template::new("%d{x}").resolve(&Event::new()).unwrap_err();
    assert_eq!(vec!["timestamp".to_string(), "x".to_string()], error.names);
}

#[test]
fn timestamp_rejects_fields_out_of_range() {
    assert!(Timestamp::new(10000, 1, 1, 0, 0, 0, 0).is_none());
    assert!(Timestamp::new(2019, 0, 1, 0, 0, 0, 0).is_none());
    assert!(Timestamp::new(2019, 13, 1, 0, 0, 0, 0).is_none());
    assert!(Timestamp::new(2019, 1, 0, 0, 0, 0, 0).is_none());
    assert!(Timestamp::new(2019, 1, 32, 0, 0, 0, 0).is_none());
    assert!(Timestamp::new(2019, 1, 1, 24, 0, 0, 0).is_none());
    assert!(Timestamp::new(2019, 1, 1, 0, 60, 0, 0).is_none());
    assert!(Timestamp::new(2019, 1, 1, 0, 0, 60, 0).is_none());
    assert!(Timestamp::new(2019, 1, 1, 0, 0, 0, 1_000_000_000).is_none());
    assert!(Timestamp::new(9999, 12, 31, 23, 59, 59, 999_999_999).is_some());
    assert!(Timestamp::new(0, 1, 1, 0, 0, 0, 0).is_some());
}

#[test]
fn value_text_forms() {
    assert_eq!("abc", Value::Text("abc".into()).to_text());
    assert_eq!("0", Value::Integer(0).to_text());
    assert_eq!("9223372036854775807", Value::Integer(i64::MAX).to_text());
    assert_eq!("-9223372036854775808", Value::Integer(i64::MIN).to_text());
    assert_eq!("false", Value::Boolean(false).to_text());
    let t = Timestamp::new(2019, 5, 1, 12, 34, 56, 120_000_000).unwrap();
    assert_eq!("2019-05-01T12:34:56.120000000Z", Value::Timestamp(t).to_text());
}

#[test]
fn event_fields_are_replaced_in_place_and_looked_up_by_name() {
    let mut event = Event::new();
    event.insert_explicit("a".into(), Value::Integer(1));
    event.insert_explicit("b".into(), Value::Integer(2));
    event.insert_explicit("a".into(), Value::Integer(3));
    assert_eq!(2, event.len());
    assert_eq!(Some(&Value::Integer(3)), event.get("a"));
    assert_eq!(Some(&Value::Integer(2)), event.get("b"));
    assert_eq!(None, event.get("c"));
    assert_eq!(0, event.position("a"));
    assert_eq!(2, event.position("zz"));
    let (name, value) = event.field(1);
    assert_eq!(("b", &Value::Integer(2)), (name.as_str(), value));
}

#[test]
fn every_time_directive_renders_its_part() {
    let t = Timestamp::new(2019, 5, 1, 7, 8, 9, 26_490_000).unwrap();
    let event = Event::from_message("line", t);
    let render = |pattern: &str| Template::new(pattern).resolve(&event).unwrap();
    assert_eq!("2019 20 19", render("%Y %C %y"));
    assert_eq!("05 May May May", render("%m %b %h %B"));
    assert_eq!("01| 1", render("%d|%e"));
    assert_eq!("07| 7|07| 7|AM|am", render("%H|%k|%I|%l|%p|%P"));
    assert_eq!("08 09 026490000", render("%M %S %f"));
    assert_eq!("2019-05-01 05/01/19", render("%F %D"));
    assert_eq!("07:08:09 07:08", render("%T %R"));
    assert_eq!("+0000 UTC", render("%z %Z"));
}

#[test]
fn twelve_hour_clock_and_month_names() {
    let render = |month: u8, hour: u8, pattern: &str| {
        let event = Event::from_message("x", Timestamp::new(1999, month, 28, hour, 0, 0, 0).unwrap());
        Template::new(pattern).resolve(&event).unwrap()
    };
    assert_eq!("12 AM 0", render(1, 0, "%I %p %k").replace("  ", " "));
    assert_eq!("12 PM", render(1, 12, "%I %p"));
    assert_eq!("11 PM 23", render(1, 23, "%I %p %H"));
    assert_eq!("01 pm", render(1, 13, "%I %P"));
    let names: Vec<String> = (1..=12).map(|m| render(m, 0, "%b=%B")).collect();
    assert_eq!(
        vec![
            "Jan=January", "Feb=February", "Mar=March", "Apr=April", "May=May", "Jun=June",
            "Jul=July", "Aug=August", "Sep=September", "Oct=October", "Nov=November",
            "Dec=December",
        ],
        names
    );
    assert_eq!("99 19", render(1, 0, "%y %C"));
}
