use rabbitmq_http_client::commons::{BindingDestinationType, PolicyTarget};
use rabbitmq_http_client::fields::{ParseFailure, ResponseParseError};
use rabbitmq_http_client::responses::{
    BindingInfo, Channel, ClusterIdentity, ClusterNode, Connection, Consumer, ExchangeInfo,
    Policy, QueueInfo, RuntimeParameter, User, UserConnection, VirtualHost,
};
use serde_json::Value;

fn parse(text: &str) -> Value {
    serde_json::from_str(text).unwrap()
}

const CLASSIC_QUEUE: &str = r#"{
    "name": "orders", "vhost": "/", "type": "classic", "durable": true,
    "auto_delete": false, "exclusive": false, "arguments": {"x-max-length": 5},
    "node": "rabbit@a", "state": "running", "memory": 1024, "consumers": 2,
    "consumer_utilisation": 0.5, "exclusive_consumer_tag": null, "policy": "ha",
    "message_bytes": 10, "message_bytes_persistent": 11, "message_bytes_ram": 12,
    "message_bytes_ready": 13, "message_bytes_unacknowledged": 14, "messages": 3,
    "messages_persistent": 4, "messages_ram": 5, "messages_unacknowledged": 6
}"#;

fn quorum_queue() -> Value {
    let mut v = parse(CLASSIC_QUEUE);
    let o = v.as_object_mut().unwrap();
    o.insert("type".to_owned(), Value::from("quorum"));
    o.insert("leader".to_owned(), Value::from("rabbit@a"));
    o.insert("members".to_owned(), parse(r#"["rabbit@a", "rabbit@b"]"#));
    o.insert("online".to_owned(), parse(r#"["rabbit@a"]"#));
    v
}

fn assert_missing(e: &ResponseParseError, resource: &str, field: &str) {
    assert_eq!(e.resource, resource);
    assert_eq!(e.field, field);
    assert!(matches!(e.failure, ParseFailure::MissingField));
}

fn assert_malformed(e: &ResponseParseError, resource: &str, field: &str, value: &str) {
    assert_eq!(e.resource, resource);
    assert_eq!(e.field, field);
    match &e.failure {
        ParseFailure::MalformedField { value: v } => assert_eq!(v, value),
        other => panic!("unexpected failure {:?}", other),
    }
}

#[test]
fn classic_queue_parses_with_renamed_fields() {
    let q = QueueInfo::from_value(&parse(CLASSIC_QUEUE)).unwrap();
    assert_eq!(q.name, "orders");
    assert_eq!(q.queue_type, "classic");
    assert!(q.durable && !q.auto_delete && !q.exclusive);
    assert_eq!(q.arguments.get("x-max-length").unwrap(), &Value::from(5u64));
    assert_eq!(q.consumer_count, 2);
    assert_eq!(q.message_count, 3);
    assert_eq!(q.on_disk_message_count, 4);
    assert_eq!(q.in_memory_message_count, 5);
    assert_eq!(q.unacknowledged_message_count, 6);
    assert_eq!(q.message_bytes_unacknowledged, 14);
    assert_eq!(q.exclusive_consumer_tag, None);
    assert_eq!(q.policy.as_deref(), Some("ha"));
}

#[test]
fn replica_fields_are_absent_for_a_classic_queue() {
    let q = QueueInfo::from_value(&parse(CLASSIC_QUEUE)).unwrap();
    assert!(q.leader.is_none());
    assert!(q.members.is_none());
    assert!(q.online.is_none());
}

#[test]
fn replica_fields_are_present_for_a_quorum_queue() {
    let q = QueueInfo::from_value(&quorum_queue()).unwrap();
    assert_eq!(q.leader.as_deref(), Some("rabbit@a"));
    assert_eq!(q.members, Some(vec!["rabbit@a".to_owned(), "rabbit@b".to_owned()]));
    assert_eq!(q.online, Some(vec!["rabbit@a".to_owned()]));
}

#[test]
fn queue_without_name_is_missing_name() {
    let mut v = parse(CLASSIC_QUEUE);
    v.as_object_mut().unwrap().remove("name");
    let e = QueueInfo::from_value(&v).unwrap_err();
    assert_missing(&e, "QueueInfo", "name");
}

#[test]
fn queue_with_a_malformed_member_list_fails() {
    let mut v = quorum_queue();
    v.as_object_mut().unwrap().insert("members".to_owned(), parse(r#"["rabbit@a", 7]"#));
    let e = QueueInfo::from_value(&v).unwrap_err();
    assert_malformed(&e, "QueueInfo", "members", r#"["rabbit@a",7]"#);
}

#[test]
fn queue_consumer_count_out_of_range_fails() {
    let mut v = parse(CLASSIC_QUEUE);
    v.as_object_mut().unwrap().insert("consumers".to_owned(), Value::from(70000u64));
    let e = QueueInfo::from_value(&v).unwrap_err();
    assert_malformed(&e, "QueueInfo", "consumers", "70000");
}

const NODE: &str = r#"{
    "name": "rabbit@a", "uptime": 100, "run_queue": 1, "processors": 8, "os_pid": "4242",
    "fd_total": 1024, "proc_total": 1048576, "sockets_total": 900, "mem_limit": 4000000,
    "mem_alarm": false, "disk_free_limit": 50000, "disk_free_alarm": true,
    "rates_mode": "basic"
}"#;

#[test]
fn cluster_node_coerces_its_process_identifier() {
    let n = ClusterNode::from_value(&parse(NODE)).unwrap();
    assert_eq!(n.os_pid, 4242);
    assert_eq!(n.total_erlang_processes, 1048576);
    assert_eq!(n.memory_high_watermark, 4000000);
    assert!(!n.has_memory_alarm_in_effect);
    assert_eq!(n.free_disk_space_low_watermark, 50000);
    assert!(n.has_free_disk_space_alarm_in_effect);
    assert_eq!(n.rates_mode, "basic");

    let mut v = parse(NODE);
    v.as_object_mut().unwrap().insert("os_pid".to_owned(), Value::from(77u64));
    assert_eq!(ClusterNode::from_value(&v).unwrap().os_pid, 77);
    v.as_object_mut().unwrap().insert("os_pid".to_owned(), Value::from("+12"));
    assert_eq!(ClusterNode::from_value(&v).unwrap().os_pid, 12);
}

#[test]
fn cluster_node_with_non_numeric_process_identifier_fails() {
    let mut v = parse(NODE);
    v.as_object_mut().unwrap().insert("os_pid".to_owned(), Value::from("12a"));
    let e = ClusterNode::from_value(&v).unwrap_err();
    assert_malformed(&e, "ClusterNode", "os_pid", r#""12a""#);
    v.as_object_mut().unwrap().insert("os_pid".to_owned(), Value::from("99999999999"));
    assert!(ClusterNode::from_value(&v).is_err());
}

const POLICY: &str = r#"{
    "name": "ha", "vhost": "/", "pattern": "^ha\\.", "apply-to": "quorum_queues",
    "priority": -3, "definition": {"max-length": 10}
}"#;

#[test]
fn policy_parses_its_target_and_definition() {
    let p = Policy::from_value(&parse(POLICY)).unwrap();
    assert_eq!(p.apply_to, PolicyTarget::QuorumQueues);
    assert_eq!(p.priority, -3);
    assert_eq!(p.pattern, "^ha\\.");
    assert_eq!(p.definition.unwrap().get("max-length").unwrap(), &Value::from(10u64));
}

#[test]
fn policy_keeps_absent_and_empty_definitions_apart() {
    let mut v = parse(POLICY);
    v.as_object_mut().unwrap().remove("definition");
    assert!(Policy::from_value(&v).unwrap().definition.is_none());
    v.as_object_mut().unwrap().insert("definition".to_owned(), Value::Null);
    assert!(Policy::from_value(&v).unwrap().definition.is_none());
    v.as_object_mut().unwrap().insert("definition".to_owned(), parse("{}"));
    let d = Policy::from_value(&v).unwrap().definition;
    assert!(d.is_some());
    assert!(d.unwrap().is_empty());
}

#[test]
fn policy_with_unknown_target_fails() {
    let mut v = parse(POLICY);
    v.as_object_mut().unwrap().insert("apply-to".to_owned(), Value::from("streamz"));
    let e = Policy::from_value(&v).unwrap_err();
    assert_eq!(e.resource, "Policy");
    assert_eq!(e.field, "apply-to");
    match e.failure {
        ParseFailure::UnknownEnumVariant { enumeration, value } => {
            assert_eq!(enumeration, "PolicyTarget");
            assert_eq!(value, "streamz");
        }
        other => panic!("unexpected failure {:?}", other),
    }
}

#[test]
fn policy_priority_out_of_range_fails() {
    let mut v = parse(POLICY);
    v.as_object_mut().unwrap().insert("priority".to_owned(), Value::from(40000i64));
    let e = Policy::from_value(&v).unwrap_err();
    assert_malformed(&e, "Policy", "priority", "40000");
}

#[test]
fn binding_parses_its_destination_type() {
    let text = r#"{"vhost": "/", "source": "amq.direct", "destination": "orders",
        "destination_type": "queue", "routing_key": "k", "arguments": {},
        "properties_key": "k"}"#;
    let b = BindingInfo::from_value(&parse(text)).unwrap();
    assert_eq!(b.destination_type, BindingDestinationType::Queue);
    assert_eq!(b.destination, "orders");
    assert!(b.arguments.is_empty());

    let mut v = parse(text);
    v.as_object_mut().unwrap().insert("destination_type".to_owned(), Value::from(true));
    let e = BindingInfo::from_value(&v).unwrap_err();
    assert_malformed(&e, "BindingInfo", "destination_type", "true");
}

#[test]
fn connection_parses_with_nested_properties() {
    let text = r#"{"name": "c1", "node": "rabbit@a", "state": "running", "protocol": "AMQP 0-9-1",
        "user": "guest", "connected_at": 1700000000000, "host": "10.0.0.1", "port": 5672,
        "peer_host": "10.0.0.2", "peer_port": 61000, "channel_max": 2047, "channels": 3,
        "client_properties": {"connection_name": "app", "platform": "Rust", "product": "lapin",
            "version": "2.0", "capabilities": {"authentication_failure_close": true,
            "basic.nack": true, "connection.blocked": false, "consumer_cancel_notify": true,
            "exchange_exchange_bindings": true, "publisher_confirms": true}}}"#;
    let c = Connection::from_value(&parse(text)).unwrap();
    assert_eq!(c.username, "guest");
    assert_eq!(c.server_hostname, "10.0.0.1");
    assert_eq!(c.server_port, 5672);
    assert_eq!(c.client_hostname, "10.0.0.2");
    assert_eq!(c.client_port, 61000);
    assert_eq!(c.channel_count, 3);
    assert_eq!(c.connected_at, 1700000000000);
    assert_eq!(c.client_properties.product, "lapin");
    assert!(c.client_properties.capabilities.basic_nack);
    assert!(!c.client_properties.capabilities.connection_blocked);
    assert!(c.client_properties.capabilities.exchange_to_exchange_bindings);

    let mut v = parse(text);
    v["client_properties"]["capabilities"].as_object_mut().unwrap().remove("basic.nack");
    let e = Connection::from_value(&v).unwrap_err();
    assert_missing(&e, "ClientCapabilities", "basic.nack");
}

#[test]
fn channel_and_consumer_parse() {
    let ch = Channel::from_value(&parse(
        r#"{"number": 1, "name": "c1 (1)", "connection_details": {"name": "c1",
        "peer_host": "10.0.0.2", "peer_port": 61000}, "vhost": "/", "state": "running",
        "consumer_count": 2, "confirm": true, "prefetch_count": 10,
        "messages_unacknowledged": 4, "messages_unconfirmed": 0}"#,
    ))
    .unwrap();
    assert_eq!(ch.id, 1);
    assert!(ch.has_publisher_confirms_enabled);
    assert_eq!(ch.connection_details.client_port, 61000);

    let co = Consumer::from_value(&parse(
        r#"{"consumer_tag": "t1", "active": true, "exclusive": false, "ack_required": true,
        "queue": {"name": "orders", "vhost": "/"}}"#,
    ))
    .unwrap();
    assert!(co.manual_ack);
    assert_eq!(co.queue.name, "orders");
}

#[test]
fn small_entities_parse() {
    let u = User::from_value(&parse(
        r#"{"name": "guest", "tags": ["administrator"], "password_hash": "abc"}"#,
    ))
    .unwrap();
    assert_eq!(u.tags, vec!["administrator".to_owned()]);
    let uc = UserConnection::from_value(&parse(
        r#"{"name": "c1", "node": "n", "user": "guest", "vhost": "/"}"#,
    ))
    .unwrap();
    assert_eq!(uc.username, "guest");
    let vh = VirtualHost::from_value(&parse(
        r#"{"name": "/", "tags": [], "description": "default", "metadata": {"tags": []}}"#,
    ))
    .unwrap();
    assert_eq!(vh.description.as_deref(), Some("default"));
    assert!(vh.default_queue_type.is_none());
    assert_eq!(vh.metadata.tags, Some(vec![]));
    let x = ExchangeInfo::from_value(&parse(
        r#"{"name": "amq.topic", "vhost": "/", "type": "topic", "durable": true,
        "auto_delete": false, "arguments": {}}"#,
    ))
    .unwrap();
    assert_eq!(x.exchange_type, "topic");
    let rp = RuntimeParameter::from_value(&parse(
        r#"{"name": "p", "vhost": "/", "component": "shovel", "value": {"src-uri": "amqp://"}}"#,
    ))
    .unwrap();
    assert_eq!(rp.value.len(), 1);
    assert_eq!(ClusterIdentity::from_value(&parse(r#"{"name": "c"}"#)).unwrap().name, "c");
    let e = User::from_value(&parse(r#"{"name": 5, "tags": [], "password_hash": ""}"#)).unwrap_err();
    assert_malformed(&e, "User", "name", "5");
    let e = VirtualHost::from_value(&parse(r#"{"name": "/"}"#)).unwrap_err();
    assert_missing(&e, "VirtualHost", "metadata");
}
