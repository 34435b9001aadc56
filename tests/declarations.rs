use rabbitmq_http_client::commons::{ExchangeType, QueueType};
use rabbitmq_http_client::requests::{ExchangeParams, QueueParams, XArguments};
use serde_json::Value;

fn args(pairs: &[(&str, Value)]) -> XArguments {
    let mut m = serde_json::Map::new();
    for (k, v) in pairs {
        m.insert((*k).to_owned(), v.clone());
    }
    Some(m)
}

fn type_tag(p: &QueueParams) -> Value {
    p.arguments.as_ref().unwrap().get("x-queue-type").unwrap().clone()
}

#[test]
fn every_queue_mode_carries_its_type_tag() {
    let q = QueueParams::new_quorum_queue("q", None);
    assert_eq!(type_tag(&q), Value::String("quorum".to_owned()));
    assert_eq!(q.arguments.as_ref().unwrap().len(), 1);
    let s = QueueParams::new_stream("s", None);
    assert_eq!(type_tag(&s), Value::String("stream".to_owned()));
    let c = QueueParams::new_durable_classic_queue("c", None);
    assert_eq!(type_tag(&c), Value::String("classic".to_owned()));
    let e = QueueParams::new_exclusive_classic_queue("e", None);
    assert_eq!(type_tag(&e), Value::String("classic".to_owned()));
    assert_eq!(e.queue_type, QueueType::Classic);
    assert_eq!(q.name, "q");
}

#[test]
fn caller_arguments_are_merged_over_the_type_tag() {
    let q = QueueParams::new_quorum_queue(
        "q",
        args(&[("x-max-length", Value::from(10u64)), ("x-queue-type", Value::from("classic"))]),
    );
    let m = q.arguments.as_ref().unwrap();
    assert_eq!(m.len(), 2);
    assert_eq!(m.get("x-queue-type").unwrap(), &Value::from("classic"));
    assert_eq!(m.get("x-max-length").unwrap(), &Value::from(10u64));
    assert_eq!(q.queue_type, QueueType::Quorum);

    let s = QueueParams::new_stream("s", args(&[("x-max-age", Value::from("1D"))]));
    let m = s.arguments.as_ref().unwrap();
    assert_eq!(m.len(), 2);
    assert_eq!(m.get("x-queue-type").unwrap(), &Value::from("stream"));
    assert_eq!(m.get("x-max-age").unwrap(), &Value::from("1D"));
}

#[test]
fn empty_caller_arguments_leave_only_the_tag() {
    let q = QueueParams::new_durable_classic_queue("c", Some(serde_json::Map::new()));
    assert_eq!(q.arguments.as_ref().unwrap().len(), 1);
    assert_eq!(type_tag(&q), Value::from("classic"));
}

#[test]
fn queue_modes_have_their_flags() {
    for q in [
        QueueParams::new_quorum_queue("a", None),
        QueueParams::new_stream("b", None),
        QueueParams::new_durable_classic_queue("c", None),
    ] {
        assert!(q.durable && !q.auto_delete && !q.exclusive);
    }
    let e = QueueParams::new_exclusive_classic_queue("d", None);
    assert!(!e.durable && !e.auto_delete && e.exclusive);
}

#[test]
fn exchange_constructors_pass_arguments_through() {
    let e = ExchangeParams::new("x", ExchangeType::Topic, false, true, None);
    assert_eq!(e.name, "x");
    assert_eq!(e.exchange_type, ExchangeType::Topic);
    assert!(!e.durable && e.auto_delete && e.arguments.is_none());

    let e = ExchangeParams::durable_headers("h", args(&[("alternate-exchange", Value::from("ae"))]));
    assert_eq!(e.exchange_type, ExchangeType::Headers);
    assert!(e.durable && !e.auto_delete);
    let m = e.arguments.as_ref().unwrap();
    assert_eq!(m.len(), 1);
    assert_eq!(m.get("alternate-exchange").unwrap(), &Value::from("ae"));

    let e = ExchangeParams::durable("d", ExchangeType::Direct, None);
    assert!(e.durable && !e.auto_delete && e.exchange_type == ExchangeType::Direct);
    let e = ExchangeParams::fanout("f", false, false, None);
    assert!(!e.durable && e.exchange_type == ExchangeType::Fanout);
    let e = ExchangeParams::durable_fanout("f", None);
    assert!(e.durable && e.exchange_type == ExchangeType::Fanout);
    let e = ExchangeParams::topic("t", true, true, None);
    assert!(e.durable && e.auto_delete && e.exchange_type == ExchangeType::Topic);
    let e = ExchangeParams::durable_topic("t", None);
    assert!(e.durable && !e.auto_delete && e.exchange_type == ExchangeType::Topic);
    let e = ExchangeParams::direct("d", false, true, None);
    assert!(!e.durable && e.auto_delete && e.exchange_type == ExchangeType::Direct);
    let e = ExchangeParams::durable_direct("d", None);
    assert!(e.durable && e.exchange_type == ExchangeType::Direct);
    let e = ExchangeParams::headers("h", true, false, None);
    assert!(e.durable && e.exchange_type == ExchangeType::Headers);
}
