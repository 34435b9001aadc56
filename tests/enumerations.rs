use rabbitmq_http_client::commons::{
    BindingDestinationType, ExchangeType, PolicyTarget, QueueType, UnknownVariant,
};

#[test]
fn queue_types_round_trip() {
    for t in [QueueType::Classic, QueueType::Quorum, QueueType::Stream] {
        let wire = t.as_wire_str();
        assert_eq!(QueueType::from_wire(&wire).unwrap(), t);
    }
    assert_eq!(QueueType::Quorum.as_wire_str(), "quorum");
    assert_eq!(QueueType::Classic.as_wire_str(), "classic");
    assert_eq!(QueueType::Stream.as_wire_str(), "stream");
}

#[test]
fn exchange_types_round_trip() {
    for t in [ExchangeType::Direct, ExchangeType::Fanout, ExchangeType::Topic, ExchangeType::Headers] {
        let wire = t.as_wire_str();
        assert_eq!(ExchangeType::from_wire(&wire).unwrap(), t);
    }
    assert_eq!(ExchangeType::Headers.as_wire_str(), "headers");
}

#[test]
fn policy_targets_round_trip() {
    for t in [
        PolicyTarget::Queues,
        PolicyTarget::ClassicQueues,
        PolicyTarget::QuorumQueues,
        PolicyTarget::Streams,
        PolicyTarget::Exchanges,
        PolicyTarget::All,
    ] {
        let wire = t.as_wire_str();
        assert_eq!(PolicyTarget::from_wire(&wire).unwrap(), t);
    }
    assert_eq!(PolicyTarget::QuorumQueues.as_wire_str(), "quorum_queues");
}

#[test]
fn binding_destination_types_round_trip() {
    for t in [BindingDestinationType::Queue, BindingDestinationType::Exchange] {
        let wire = t.as_wire_str();
        assert_eq!(BindingDestinationType::from_wire(&wire).unwrap(), t);
    }
}

#[test]
fn unknown_wire_string_is_reported_with_its_enumeration() {
    let e: UnknownVariant = QueueType::from_wire("lazy").unwrap_err();
    assert_eq!(e.enumeration, "QueueType");
    assert_eq!(e.value, "lazy");
    let e = ExchangeType::from_wire("Direct").unwrap_err();
    assert_eq!(e.enumeration, "ExchangeType");
    assert_eq!(e.value, "Direct");
    assert!(PolicyTarget::from_wire("").is_err());
    assert!(BindingDestinationType::from_wire("queues").is_err());
}
