//! Outbound payloads: what the caller asks the broker to declare.
use vstd::prelude::*;
use crate::commons::{ExchangeType, PolicyTarget, QueueType};
use crate::json::{entries, map_append, map_insert, new_map, no_entries, string_value, ArgumentMap};

verus! {

/// A virtual host to declare.
pub struct VirtualHostParams<'a> {
    pub name: &'a str,
    pub description: Option<&'a str>,
    pub tags: Option<Vec<&'a str>>,
    pub default_queue_type: Option<QueueType>,
    pub tracing: bool,
}

/// A user to declare.
pub struct UserParams<'a> {
    pub name: &'a str,
    pub password_hash: &'a str,
    pub tags: &'a str,
}

/// Optional extended arguments of a queue or an exchange.
pub type XArguments = Option<ArgumentMap>;

/// The argument key under which a queue's type is declared.
pub open spec fn queue_type_key() -> Seq<char> {
    "x-queue-type"@
}

/// The entries that the caller supplied, none when it supplied no map.
pub open spec fn supplied(optional_args: XArguments) -> Map<Seq<char>, serde_json::Value> {
    match optional_args {
        Some(m) => entries(m),
        None => no_entries(),
    }
}

/// `m` is the type tag of `queue_type` with the caller's entries merged over it:
/// every caller entry is kept as given, and the tag stands where the caller
/// gave none.
pub open spec fn merges_type_tag(
    m: Map<Seq<char>, serde_json::Value>,
    queue_type: QueueType,
    optional_args: XArguments,
) -> bool {
    let caller = supplied(optional_args);
    &&& m.dom() == caller.dom().insert(queue_type_key())
    &&& forall|k: Seq<char>| #[trigger] caller.contains_key(k) ==> m[k] == caller[k]
    &&& !caller.contains_key(queue_type_key()) ==> crate::json::json_as_str(m[queue_type_key()])
        == Some(queue_type.wire())
}

/// A queue to declare.
pub struct QueueParams<'a> {
    pub name: &'a str,
    pub queue_type: QueueType,
    pub durable: bool,
    pub auto_delete: bool,
    pub exclusive: bool,
    pub arguments: XArguments,
}

impl<'a> QueueParams<'a> {
    /// `self` declares `name` as a queue of `queue_type`, with the type tag and
    /// the caller's arguments merged as `merges_type_tag` says.
    pub open spec fn declares(
        self,
        name: &'a str,
        queue_type: QueueType,
        optional_args: XArguments,
    ) -> bool {
        &&& self.name == name
        &&& self.queue_type == queue_type
        &&& self.arguments is Some
        &&& merges_type_tag(entries(self.arguments->0), queue_type, optional_args)
    }

    /// `self` has the flags of a durable queue: durable, kept when unused,
    /// open to every connection.
    pub open spec fn has_durable_profile(self) -> bool {
        self.durable && !self.auto_delete && !self.exclusive
    }

    /// `self` has the flags of an exclusive queue: transient, owned by one
    /// connection.
    pub open spec fn has_exclusive_profile(self) -> bool {
        !self.durable && !self.auto_delete && self.exclusive
    }

    pub fn new_quorum_queue(name: &'a str, optional_args: XArguments) -> (r: Self)
        ensures
            r.declares(name, QueueType::Quorum, optional_args),
            r.has_durable_profile(),
    {
        let args = Self::combined_args(optional_args, QueueType::Quorum);
        QueueParams {
            name,
            queue_type: QueueType::Quorum,
            durable: true,
            auto_delete: false,
            exclusive: false,
            arguments: args,
        }
    }

    pub fn new_stream(name: &'a str, optional_args: XArguments) -> (r: Self)
        ensures
            r.declares(name, QueueType::Stream, optional_args),
            r.has_durable_profile(),
    {
        let args = Self::combined_args(optional_args, QueueType::Stream);
        QueueParams {
            name,
            queue_type: QueueType::Stream,
            durable: true,
            auto_delete: false,
            exclusive: false,
            arguments: args,
        }
    }

    pub fn new_durable_classic_queue(name: &'a str, optional_args: XArguments) -> (r: Self)
        ensures
            r.declares(name, QueueType::Classic, optional_args),
            r.has_durable_profile(),
    {
        let args = Self::combined_args(optional_args, QueueType::Classic);
        QueueParams {
            name,
            queue_type: QueueType::Classic,
            durable: true,
            auto_delete: false,
            exclusive: false,
            arguments: args,
        }
    }

    pub fn new_exclusive_classic_queue(name: &'a str, optional_args: XArguments) -> (r: Self)
        ensures
            r.declares(name, QueueType::Classic, optional_args),
            r.has_exclusive_profile(),
    {
        let args = Self::combined_args(optional_args, QueueType::Classic);
        QueueParams {
            name,
            queue_type: QueueType::Classic,
            durable: false,
            auto_delete: false,
            exclusive: true,
            arguments: args,
        }
    }

    /// Stamps the type tag into an empty map, then merges the caller's
    /// arguments over it.
    fn combined_args(optional_args: XArguments, queue_type: QueueType) -> (r: XArguments)
        ensures
            r is Some,
            merges_type_tag(entries(r->0), queue_type, optional_args),
    {
        let mut result = new_map();
        let tag = string_value(queue_type.as_wire_str());
        map_insert(&mut result, "x-queue-type".to_owned(), tag);
        let ghost stamped = entries(result);
        match optional_args {
            Some(val) => {
                let mut val = val;
                map_append(&mut result, &mut val);
            },
            None => {},
        }
        proof {
            assert(stamped.dom() =~= set![queue_type_key()]);
            assert(entries(result).dom() =~= supplied(optional_args).dom().insert(queue_type_key()));
        }
        Some(result)
    }
}

/// An exchange to declare. Its arguments are passed on as given: an exchange
/// has no mandatory argument.
#[derive(Debug)]
pub struct ExchangeParams<'a> {
    pub name: &'a str,
    pub exchange_type: ExchangeType,
    pub durable: bool,
    pub auto_delete: bool,
    pub arguments: XArguments,
}

impl<'a> ExchangeParams<'a> {
    /// `self` declares `name` as an exchange of `exchange_type` with exactly
    /// these flags and arguments.
    pub open spec fn declares(
        self,
        name: &'a str,
        exchange_type: ExchangeType,
        durable: bool,
        auto_delete: bool,
        optional_args: XArguments,
    ) -> bool {
        &&& self.name == name
        &&& self.exchange_type == exchange_type
        &&& self.durable == durable
        &&& self.auto_delete == auto_delete
        &&& self.arguments == optional_args
    }

    pub fn durable(name: &'a str, exchange_type: ExchangeType, optional_args: XArguments) -> (r: Self)
        ensures
            r.declares(name, exchange_type, true, false, optional_args),
    {
        Self::new(name, exchange_type, true, false, optional_args)
    }

    pub fn fanout(
        name: &'a str,
        durable: bool,
        auto_delete: bool,
        optional_args: XArguments,
    ) -> (r: Self)
        ensures
            r.declares(name, ExchangeType::Fanout, durable, auto_delete, optional_args),
    {
        Self::new(name, ExchangeType::Fanout, durable, auto_delete, optional_args)
    }

    pub fn durable_fanout(name: &'a str, optional_args: XArguments) -> (r: Self)
        ensures
            r.declares(name, ExchangeType::Fanout, true, false, optional_args),
    {
        Self::new(name, ExchangeType::Fanout, true, false, optional_args)
    }

    pub fn topic(
        name: &'a str,
        durable: bool,
        auto_delete: bool,
        optional_args: XArguments,
    ) -> (r: Self)
        ensures
            r.declares(name, ExchangeType::Topic, durable, auto_delete, optional_args),
    {
        Self::new(name, ExchangeType::Topic, durable, auto_delete, optional_args)
    }

    pub fn durable_topic(name: &'a str, optional_args: XArguments) -> (r: Self)
        ensures
            r.declares(name, ExchangeType::Topic, true, false, optional_args),
    {
        Self::new(name, ExchangeType::Topic, true, false, optional_args)
    }

    pub fn direct(
        name: &'a str,
        durable: bool,
        auto_delete: bool,
        optional_args: XArguments,
    ) -> (r: Self)
        ensures
            r.declares(name, ExchangeType::Direct, durable, auto_delete, optional_args),
    {
        Self::new(name, ExchangeType::Direct, durable, auto_delete, optional_args)
    }

    pub fn durable_direct(name: &'a str, optional_args: XArguments) -> (r: Self)
        ensures
            r.declares(name, ExchangeType::Direct, true, false, optional_args),
    {
        Self::new(name, ExchangeType::Direct, true, false, optional_args)
    }

    pub fn headers(
        name: &'a str,
        durable: bool,
        auto_delete: bool,
        optional_args: XArguments,
    ) -> (r: Self)
        ensures
            r.declares(name, ExchangeType::Headers, durable, auto_delete, optional_args),
    {
        Self::new(name, ExchangeType::Headers, durable, auto_delete, optional_args)
    }

    pub fn durable_headers(name: &'a str, optional_args: XArguments) -> (r: Self)
        ensures
            r.declares(name, ExchangeType::Headers, true, false, optional_args),
    {
        Self::new(name, ExchangeType::Headers, true, false, optional_args)
    }

    pub fn new(
        name: &'a str,
        exchange_type: ExchangeType,
        durable: bool,
        auto_delete: bool,
        optional_args: XArguments,
    ) -> (r: Self)
        ensures
            r.declares(name, exchange_type, durable, auto_delete, optional_args),
    {
        ExchangeParams { name, exchange_type, durable, auto_delete, arguments: optional_args }
    }
}

/// The value of a runtime parameter: broker-defined entries.
pub type RuntimeParameterValue = ArgumentMap;

/// A runtime parameter to declare.
pub struct RuntimeParameterDefinition {
    pub name: String,
    pub vhost: String,
    pub component: String,
    pub value: RuntimeParameterValue,
}

/// The definition of a policy: broker-defined entries, or none.
pub type PolicyDefinition = Option<ArgumentMap>;

/// A policy to declare.
pub struct PolicyParams<'a> {
    pub vhost: &'a str,
    pub name: &'a str,
    pub pattern: &'a str,
    pub apply_to: PolicyTarget,
    pub priority: i32,
    pub definition: PolicyDefinition,
}

/// Whatever the caller supplies, a declared queue's arguments hold the type
/// tag, and the tag names the queue's own type unless the caller gave one.
pub proof fn lemma_type_tag_always_present(
    p: QueueParams,
    name: &str,
    queue_type: QueueType,
    optional_args: XArguments,
)
    requires
        p.declares(name, queue_type, optional_args),
    ensures
        entries(p.arguments->0).contains_key(queue_type_key()),
        optional_args is None ==> entries(p.arguments->0).dom() == set![queue_type_key()],
        !supplied(optional_args).contains_key(queue_type_key()) ==> crate::json::json_as_str(
            entries(p.arguments->0)[queue_type_key()],
        ) == Some(queue_type.wire()),
{
}

/// A type tag that the caller supplies wins over the one that the queue's
/// type implies.
pub proof fn lemma_caller_type_tag_wins(
    p: QueueParams,
    name: &str,
    queue_type: QueueType,
    optional_args: XArguments,
)
    requires
        p.declares(name, queue_type, optional_args),
        supplied(optional_args).contains_key(queue_type_key()),
    ensures
        entries(p.arguments->0)[queue_type_key()] == supplied(optional_args)[queue_type_key()],
{
}

} // verus!
