use vstd::prelude::*;

verus! {

/// The error of parsing a wire string that names none of an enumeration's
/// variants: it carries the enumeration's name and the offending string.
#[derive(Debug, Clone)]
pub struct UnknownVariant {
    pub enumeration: String,
    pub value: String,
}

impl UnknownVariant {
    pub open spec fn describes(&self, enumeration: Seq<char>, value: Seq<char>) -> bool {
        self.enumeration@ == enumeration && self.value@ == value
    }
}

fn unknown_variant(enumeration: &str, value: &str) -> (r: UnknownVariant)
    ensures
        r.describes(enumeration@, value@),
{
    UnknownVariant { enumeration: enumeration.to_owned(), value: value.to_owned() }
}

/// Compares a string with a literal spelling, character by character.
fn same_text(s: &str, lit: &str) -> (r: bool)
    ensures
        r == (s@ == lit@),
{
    s.to_owned() == lit.to_owned()
}

/// The broker's queue implementations.
#[derive(Clone, Copy, Debug, PartialEq, Eq, Structural)]
pub enum QueueType {
    Classic,
    Quorum,
    Stream,
}

impl QueueType {
    pub open spec fn wire(self) -> Seq<char> {
        match self {
            QueueType::Classic => "classic"@,
            QueueType::Quorum => "quorum"@,
            QueueType::Stream => "stream"@,
        }
    }

    pub open spec fn from_wire_spec(s: Seq<char>) -> Option<QueueType> {
        if s == "classic"@ {
            Some(QueueType::Classic)
        } else if s == "quorum"@ {
            Some(QueueType::Quorum)
        } else if s == "stream"@ {
            Some(QueueType::Stream)
        } else {
            None
        }
    }

    pub fn as_wire_str(&self) -> (r: String)
        ensures
            r@ == self.wire(),
    {
        match self {
            QueueType::Classic => "classic".to_owned(),
            QueueType::Quorum => "quorum".to_owned(),
            QueueType::Stream => "stream".to_owned(),
        }
    }

    pub fn from_wire(s: &str) -> (r: Result<QueueType, UnknownVariant>)
        ensures
            match QueueType::from_wire_spec(s@) {
                Some(t) => r == Ok::<QueueType, UnknownVariant>(t),
                None => r is Err && r->Err_0.describes("QueueType"@, s@),
            },
    {
        if same_text(s, "classic") {
            Ok(QueueType::Classic)
        } else if same_text(s, "quorum") {
            Ok(QueueType::Quorum)
        } else if same_text(s, "stream") {
            Ok(QueueType::Stream)
        } else {
            Err(unknown_variant("QueueType", s))
        }
    }
}

/// Encoding a queue type and parsing the encoding back gives the same queue type.
pub proof fn lemma_queue_type_round_trip(t: QueueType)
    ensures
        QueueType::from_wire_spec(t.wire()) == Some(t),
{
    reveal_strlit("classic");
    assert("classic"@.len() == 7);
    reveal_strlit("quorum");
    assert("quorum"@.len() == 6);
    reveal_strlit("stream");
    assert("stream"@.len() == 6);
    assert("quorum"@[0] != "stream"@[0]);
}

/// The routing algorithms of exchanges.
#[derive(Clone, Copy, Debug, PartialEq, Eq, Structural)]
pub enum ExchangeType {
    Direct,
    Fanout,
    Topic,
    Headers,
}

impl ExchangeType {
    pub open spec fn wire(self) -> Seq<char> {
        match self {
            ExchangeType::Direct => "direct"@,
            ExchangeType::Fanout => "fanout"@,
            ExchangeType::Topic => "topic"@,
            ExchangeType::Headers => "headers"@,
        }
    }

    pub open spec fn from_wire_spec(s: Seq<char>) -> Option<ExchangeType> {
        if s == "direct"@ {
            Some(ExchangeType::Direct)
        } else if s == "fanout"@ {
            Some(ExchangeType::Fanout)
        } else if s == "topic"@ {
            Some(ExchangeType::Topic)
        } else if s == "headers"@ {
            Some(ExchangeType::Headers)
        } else {
            None
        }
    }

    pub fn as_wire_str(&self) -> (r: String)
        ensures
            r@ == self.wire(),
    {
        match self {
            ExchangeType::Direct => "direct".to_owned(),
            ExchangeType::Fanout => "fanout".to_owned(),
            ExchangeType::Topic => "topic".to_owned(),
            ExchangeType::Headers => "headers".to_owned(),
        }
    }

    pub fn from_wire(s: &str) -> (r: Result<ExchangeType, UnknownVariant>)
        ensures
            match ExchangeType::from_wire_spec(s@) {
                Some(t) => r == Ok::<ExchangeType, UnknownVariant>(t),
                None => r is Err && r->Err_0.describes("ExchangeType"@, s@),
            },
    {
        if same_text(s, "direct") {
            Ok(ExchangeType::Direct)
        } else if same_text(s, "fanout") {
            Ok(ExchangeType::Fanout)
        } else if same_text(s, "topic") {
            Ok(ExchangeType::Topic)
        } else if same_text(s, "headers") {
            Ok(ExchangeType::Headers)
        } else {
            Err(unknown_variant("ExchangeType", s))
        }
    }
}

/// Encoding a exchange type and parsing the encoding back gives the same value.
pub proof fn lemma_exchange_type_round_trip(t: ExchangeType)
    ensures
        ExchangeType::from_wire_spec(t.wire()) == Some(t),
{
    reveal_strlit("direct");
    assert("direct"@.len() == 6);
    reveal_strlit("fanout");
    assert("fanout"@.len() == 6);
    reveal_strlit("topic");
    assert("topic"@.len() == 5);
    reveal_strlit("headers");
    assert("headers"@.len() == 7);
    assert("direct"@[0] != "fanout"@[0]);
}

/// The kinds of resources that a policy applies to.
#[derive(Clone, Copy, Debug, PartialEq, Eq, Structural)]
pub enum PolicyTarget {
    Queues,
    ClassicQueues,
    QuorumQueues,
    Streams,
    Exchanges,
    All,
}

impl PolicyTarget {
    pub open spec fn wire(self) -> Seq<char> {
        match self {
            PolicyTarget::Queues => "queues"@,
            PolicyTarget::ClassicQueues => "classic_queues"@,
            PolicyTarget::QuorumQueues => "quorum_queues"@,
            PolicyTarget::Streams => "streams"@,
            PolicyTarget::Exchanges => "exchanges"@,
            PolicyTarget::All => "all"@,
        }
    }

    pub open spec fn from_wire_spec(s: Seq<char>) -> Option<PolicyTarget> {
        if s == "queues"@ {
            Some(PolicyTarget::Queues)
        } else if s == "classic_queues"@ {
            Some(PolicyTarget::ClassicQueues)
        } else if s == "quorum_queues"@ {
            Some(PolicyTarget::QuorumQueues)
        } else if s == "streams"@ {
            Some(PolicyTarget::Streams)
        } else if s == "exchanges"@ {
            Some(PolicyTarget::Exchanges)
        } else if s == "all"@ {
            Some(PolicyTarget::All)
        } else {
            None
        }
    }

    pub fn as_wire_str(&self) -> (r: String)
        ensures
            r@ == self.wire(),
    {
        match self {
            PolicyTarget::Queues => "queues".to_owned(),
            PolicyTarget::ClassicQueues => "classic_queues".to_owned(),
            PolicyTarget::QuorumQueues => "quorum_queues".to_owned(),
            PolicyTarget::Streams => "streams".to_owned(),
            PolicyTarget::Exchanges => "exchanges".to_owned(),
            PolicyTarget::All => "all".to_owned(),
        }
    }

    pub fn from_wire(s: &str) -> (r: Result<PolicyTarget, UnknownVariant>)
        ensures
            match PolicyTarget::from_wire_spec(s@) {
                Some(t) => r == Ok::<PolicyTarget, UnknownVariant>(t),
                None => r is Err && r->Err_0.describes("PolicyTarget"@, s@),
            },
    {
        if same_text(s, "queues") {
            Ok(PolicyTarget::Queues)
        } else if same_text(s, "classic_queues") {
            Ok(PolicyTarget::ClassicQueues)
        } else if same_text(s, "quorum_queues") {
            Ok(PolicyTarget::QuorumQueues)
        } else if same_text(s, "streams") {
            Ok(PolicyTarget::Streams)
        } else if same_text(s, "exchanges") {
            Ok(PolicyTarget::Exchanges)
        } else if same_text(s, "all") {
            Ok(PolicyTarget::All)
        } else {
            Err(unknown_variant("PolicyTarget", s))
        }
    }
}

/// Encoding a policy target and parsing the encoding back gives the same value.
pub proof fn lemma_policy_target_round_trip(t: PolicyTarget)
    ensures
        PolicyTarget::from_wire_spec(t.wire()) == Some(t),
{
    reveal_strlit("queues");
    assert("queues"@.len() == 6);
    reveal_strlit("classic_queues");
    assert("classic_queues"@.len() == 14);
    reveal_strlit("quorum_queues");
    assert("quorum_queues"@.len() == 13);
    reveal_strlit("streams");
    assert("streams"@.len() == 7);
    reveal_strlit("exchanges");
    assert("exchanges"@.len() == 9);
    reveal_strlit("all");
    assert("all"@.len() == 3);
}

/// The kinds of resources that a binding routes to.
#[derive(Clone, Copy, Debug, PartialEq, Eq, Structural)]
pub enum BindingDestinationType {
    Queue,
    Exchange,
}

impl BindingDestinationType {
    pub open spec fn wire(self) -> Seq<char> {
        match self {
            BindingDestinationType::Queue => "queue"@,
            BindingDestinationType::Exchange => "exchange"@,
        }
    }

    pub open spec fn from_wire_spec(s: Seq<char>) -> Option<BindingDestinationType> {
        if s == "queue"@ {
            Some(BindingDestinationType::Queue)
        } else if s == "exchange"@ {
            Some(BindingDestinationType::Exchange)
        } else {
            None
        }
    }

    pub fn as_wire_str(&self) -> (r: String)
        ensures
            r@ == self.wire(),
    {
        match self {
            BindingDestinationType::Queue => "queue".to_owned(),
            BindingDestinationType::Exchange => "exchange".to_owned(),
        }
    }

    pub fn from_wire(s: &str) -> (r: Result<BindingDestinationType, UnknownVariant>)
        ensures
            match BindingDestinationType::from_wire_spec(s@) {
                Some(t) => r == Ok::<BindingDestinationType, UnknownVariant>(t),
                None => r is Err && r->Err_0.describes("BindingDestinationType"@, s@),
            },
    {
        if same_text(s, "queue") {
            Ok(BindingDestinationType::Queue)
        } else if same_text(s, "exchange") {
            Ok(BindingDestinationType::Exchange)
        } else {
            Err(unknown_variant("BindingDestinationType", s))
        }
    }
}

/// Encoding a binding destination type and parsing the encoding back gives the same value.
pub proof fn lemma_binding_destination_type_round_trip(t: BindingDestinationType)
    ensures
        BindingDestinationType::from_wire_spec(t.wire()) == Some(t),
{
    reveal_strlit("queue");
    assert("queue"@.len() == 5);
    reveal_strlit("exchange");
    assert("exchange"@.len() == 8);
}

} // verus!
