use es_sink::config::{Compression, ElasticSearchConfig};
use es_sink::event::{Event, Timestamp, Value};
use es_sink::request::{Method, RequestBuilder};
use es_sink::retry::{AttemptOutcome, DeliveryAction, DeliveryState};
use es_sink::service::{DeliveryService, Gate};
use es_sink::sink::{Outbound, SendError, Sink};

fn noon() -> Timestamp {
    Timestamp::new(2019, 5, 1, 12, 34, 56, 0).unwrap()
}

fn sink_for(config: &ElasticSearchConfig) -> Sink {
    let settings = config.build().unwrap();
    let builder = RequestBuilder::plain(&settings);
    Sink::new(&settings, builder, 0)
}

fn documents(request_body: &[u8]) -> Vec<(serde_json::Value, serde_json::Value)> {
    let body = std::str::from_utf8(request_body).unwrap();
    let lines: Vec<serde_json::Value> =
        body.lines().map(|line| serde_json::from_str(line).unwrap()).collect();
    assert_eq!(0, lines.len() % 2);
    lines.chunks(2).map(|pair| (pair[0].clone(), pair[1].clone())).collect()
}

fn random_line(seed: &mut u64, len: usize) -> String {
    let mut line = String::new();
    for _ in 0..len {
        *seed = seed.wrapping_mul(6364136223846793005).wrapping_add(1442695040888963407);
        line.push((b'a' + ((*seed >> 33) % 26) as u8) as char);
    }
    line
}

fn expected_document(event: &[(&str, &str)]) -> serde_json::Value {
    let mut map = serde_json::Map::new();
    for (k, v) in event {
        map.insert(k.to_string(), serde_json::Value::from(*v));
    }
    serde_json::Value::Object(map)
}

#[test]
fn structures_events_correctly() {
    let index = "test-abcdefghij".to_string();
    let config = ElasticSearchConfig {
        host: "http://localhost:9200/".into(),
        index: Some(index.clone()),
        doc_type: Some("log_lines".into()),
        id_key: Some("my_id".into()),
        compression: Some(Compression::Off),
        batch_size: Some(1),
        ..Default::default()
    };
    let mut sink = sink_for(&config);

    let mut input_event = Event::from_message("raw log line", noon());
    input_event.insert_explicit("my_id".into(), Value::Text("42".into()));
    input_event.insert_explicit("foo".into(), Value::Text("bar".into()));

    let outbound = sink.send(&input_event, 0).unwrap().unwrap();
    let hits = documents(&outbound.request.body);
    assert_eq!(1, hits.len());

    let (action, value) = &hits[0];
    assert_eq!("42", action["index"]["_id"]);
    assert_eq!(index.as_str(), action["index"]["_index"]);
    assert_eq!("log_lines", action["index"]["_type"]);

    let expected = expected_document(&[
        ("message", "raw log line"),
        ("my_id", "42"),
        ("foo", "bar"),
        ("timestamp", "2019-05-01T12:34:56Z"),
    ]);
    assert_eq!(&expected, value);
}

#[test]
fn insert_events() {
    let index = "test-klmnopqrst".to_string();
    let config = ElasticSearchConfig {
        host: "http://localhost:9200/".into(),
        index: Some(index.clone()),
        doc_type: Some("log_lines".into()),
        compression: Some(Compression::Off),
        batch_size: Some(1),
        ..Default::default()
    };
    let mut sink = sink_for(&config);

    let mut seed = 100u64;
    let input: Vec<Event> =
        (0..100).map(|_| Event::from_message(&random_line(&mut seed, 100), noon())).collect();
    let mut stored = Vec::new();
    for event in &input {
        if let Some(outbound) = sink.send(event, 0).unwrap() {
            stored.extend(documents(&outbound.request.body));
        }
    }

    assert_eq!(input.len(), stored.len());
    let input: Vec<serde_json::Value> = input
        .iter()
        .map(|event| {
            let message = match event.get("message") {
                Some(Value::Text(line)) => line.clone(),
                other => panic!("unexpected message: {:?}", other),
            };
            expected_document(&[("message", message.as_str()), ("timestamp", "2019-05-01T12:34:56Z")])
        })
        .collect();
    for (action, event) in stored {
        assert_eq!(index.as_str(), action["index"]["_index"]);
        assert!(input.contains(&event));
    }
}

#[test]
fn one_event_with_batch_size_one_gives_one_request_of_two_lines() {
    let config = ElasticSearchConfig {
        host: "http://localhost:9200".into(),
        id_key: Some("my_id".into()),
        compression: Some(Compression::Off),
        batch_size: Some(1),
        ..Default::default()
    };
    let mut sink = sink_for(&config);
    let mut event = Event::new();
    event.insert_explicit("message".into(), Value::Text("raw log line".into()));
    event.insert_explicit("foo".into(), Value::Text("bar".into()));
    event.insert_explicit("my_id".into(), Value::Text("42".into()));
    event.insert_explicit("timestamp".into(), Value::Timestamp(noon()));

    let outbound = sink.send(&event, 0).unwrap().unwrap();

    assert_eq!(0, outbound.ticket);
    assert_eq!(1, outbound.events);
    assert_eq!(Method::Post, outbound.request.method);
    assert_eq!("http://localhost:9200/_bulk", outbound.request.uri);
    assert_eq!(
        vec![("Content-Type".to_string(), "application/x-ndjson".to_string())],
        outbound.request.headers
    );
    let expected = "{\"index\":{\"_index\":\"vector-2019.05.01\",\"_type\":\"_doc\",\"_id\":\"42\"}}\n\
        {\"message\":\"raw log line\",\"foo\":\"bar\",\"my_id\":\"42\",\"timestamp\":\"2019-05-01T12:34:56Z\"}\n";
    assert_eq!(expected, String::from_utf8(outbound.request.body).unwrap());
    assert!(sink.poll(0).unwrap().is_none());
    assert!(sink.shutdown(0).unwrap().is_none());
    assert_eq!(vec![1], sink.settled(0, true));
}

#[test]
fn hundred_events_in_one_batch_give_one_request_and_one_acknowledgment() {
    let config = ElasticSearchConfig {
        host: "http://localhost:9200".into(),
        compression: Some(Compression::Off),
        ..Default::default()
    };
    let settings = config.build().unwrap();
    let mut sink = sink_for(&config);
    let mut service = DeliveryService::new(&settings.request, 0);
    let mut seed = 7u64;
    let mut requests: Vec<Outbound> = Vec::new();
    for _ in 0..100 {
        let event = Event::from_message(&random_line(&mut seed, 20), noon());
        requests.extend(sink.send(&event, 0).unwrap());
    }
    assert!(requests.is_empty());
    requests.extend(sink.shutdown(0).unwrap());
    assert_eq!(1, requests.len());
    assert_eq!(100, requests[0].events);
    assert_eq!(100, documents(&requests[0].request.body).len());

    assert_eq!(Gate::Admitted, service.try_enter(0));
    let (state, action) = service.begin();
    assert_eq!(DeliveryAction::Send, action);
    let (state, action) = service.finish(state, AttemptOutcome::Status(200));
    assert_eq!((DeliveryState::Success, DeliveryAction::Acknowledge), (state, action));
    let acks = sink.settled(requests[0].ticket, true);
    assert_eq!(vec![100], acks);
    assert_eq!(0, sink.tracker.outstanding());
    assert!(sink.shutdown(1).unwrap().is_none());
}

#[test]
fn event_that_cannot_be_encoded_is_dropped_and_not_counted() {
    let config = ElasticSearchConfig {
        host: "http://localhost:9200".into(),
        index: Some("logs-{app}".into()),
        compression: Some(Compression::Off),
        ..Default::default()
    };
    let mut sink = sink_for(&config);
    let mut good = Event::from_message("one", noon());
    good.insert_explicit("app".into(), Value::Text("web".into()));
    let bad = Event::from_message("two", noon());

    assert!(sink.send(&good, 0).unwrap().is_none());
    match sink.send(&bad, 0) {
        Err(SendError::Dropped(missing)) => {
            assert_eq!(vec!["app".to_string()], missing.names)
        }
        _ => panic!("the event should have been dropped"),
    }
    assert!(sink.send(&good, 0).unwrap().is_none());
    let outbound = sink.shutdown(0).unwrap().unwrap();
    assert_eq!(2, outbound.events);
    assert_eq!(2, documents(&outbound.request.body).len());
    assert_eq!(vec![2], sink.settled(outbound.ticket, true));
}

#[test]
fn timer_flushes_a_sparse_stream() {
    let config = ElasticSearchConfig {
        host: "http://localhost:9200".into(),
        batch_timeout: Some(5),
        compression: Some(Compression::Gzip),
        ..Default::default()
    };
    let mut sink = sink_for(&config);
    assert!(sink.send(&Event::from_message("one", noon()), 1).unwrap().is_none());
    assert!(sink.poll(4).unwrap().is_none());
    let outbound = sink.poll(5).unwrap().unwrap();
    assert_eq!(1, outbound.events);
    assert_eq!(
        vec![
            ("Content-Type".to_string(), "application/x-ndjson".to_string()),
            ("Content-Encoding".to_string(), "gzip".to_string()),
        ],
        outbound.request.headers
    );
    assert_eq!([0x1f, 0x8b], outbound.request.body[..2]);
    assert!(sink.poll(10).unwrap().is_none());
    assert!(sink.poll(14).unwrap().is_none());
}

#[test]
fn acknowledgments_follow_the_order_of_submission() {
    let config = ElasticSearchConfig {
        host: "http://localhost:9200".into(),
        compression: Some(Compression::Off),
        batch_size: Some(1),
        ..Default::default()
    };
    let mut sink = sink_for(&config);
    let first = sink.send(&Event::from_message("one", noon()), 0).unwrap().unwrap();
    let second = sink.send(&Event::from_message("two", noon()), 0).unwrap().unwrap();
    let third = sink.send(&Event::from_message("three", noon()), 0).unwrap().unwrap();
    assert_eq!((0, 1, 2), (first.ticket, second.ticket, third.ticket));
    assert!(sink.settled(second.ticket, true).is_empty());
    assert!(sink.settled(third.ticket, false).is_empty());
    assert_eq!(vec![1, 1], sink.settled(first.ticket, true));
    assert_eq!(0, sink.tracker.outstanding());
}
