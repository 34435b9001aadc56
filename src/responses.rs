//! Inbound entities: typed snapshots of what the broker reports, each parsed
//! from a response object all at once or not at all.
use vstd::prelude::*;
use crate::commons::{BindingDestinationType, PolicyTarget};
use crate::fields::{
    binding_destination_at, bool_at, i16_at, map_at, numeric_u32_at, opt_entries, opt_map_at,
    opt_str_at, opt_str_list_at, opt_view, opt_views, optional_map, optional_str,
    optional_str_list, policy_target_at, required_binding_destination, required_bool, required_i16,
    required_map, required_numeric_u32, required_policy_target, required_str, required_str_list,
    required_u16, required_u32, required_u64, str_at, str_list_at, u16_at, u32_at, u64_at, views,
    ResponseParseError,
};
use crate::json::{entries, get_field, json_get, ArgumentMap};

verus! {

/// The extended arguments that the broker reports for a queue or an exchange.
pub type XArguments = ArgumentMap;

/// The value of a runtime parameter.
pub type RuntimeParameterValue = ArgumentMap;

/// The definition of a policy, if it has one.
pub type PolicyDefinition = Option<ArgumentMap>;

/// The descriptive metadata of a virtual host.
#[derive(Debug, Clone)]
pub struct VirtualHostMetadata {
    pub tags: Option<Vec<String>>,
    pub description: Option<String>,
    pub default_queue_type: Option<String>,
}

impl VirtualHostMetadata {
    /// Whether every field of `v` that a `VirtualHostMetadata` needs is there, in its shape.
    pub open spec fn parses(v: serde_json::Value) -> bool {
        &&& opt_str_list_at(v, "tags"@) is Some
        &&& opt_str_at(v, "description"@) is Some
        &&& opt_str_at(v, "default_queue_type"@) is Some
    }

    /// Whether each field of `self` holds what `v` reports for it.
    pub open spec fn parsed_from(self, v: serde_json::Value) -> bool {
        &&& opt_views(self.tags) == opt_str_list_at(v, "tags"@)->0
        &&& opt_view(self.description) == opt_str_at(v, "description"@)->0
        &&& opt_view(self.default_queue_type) == opt_str_at(v, "default_queue_type"@)->0
    }

    /// Whether `e` is the error of the first field of `v`, in field order, that
    /// a `VirtualHostMetadata` cannot take.
    pub open spec fn first_error(v: serde_json::Value, e: ResponseParseError) -> bool {
        if opt_str_list_at(v, "tags"@) is None {
            e.reports(v, "VirtualHostMetadata"@, "tags"@)
        } else if opt_str_at(v, "description"@) is None {
            e.reports(v, "VirtualHostMetadata"@, "description"@)
        } else if opt_str_at(v, "default_queue_type"@) is None {
            e.reports(v, "VirtualHostMetadata"@, "default_queue_type"@)
        } else {
            false
        }
    }

    /// Parses a `VirtualHostMetadata` from a response object.
    pub fn from_value(v: &serde_json::Value) -> (r: Result<VirtualHostMetadata, ResponseParseError>)
        ensures
            r is Ok <==> Self::parses(*v),
            r is Ok ==> r->Ok_0.parsed_from(*v),
            r is Err ==> Self::first_error(*v, r->Err_0),
    {
        let tags = match optional_str_list(v, "VirtualHostMetadata", "tags") {
            Ok(t) => t,
            Err(e) => {
                return Err(e);
            },
        };
        let description = match optional_str(v, "VirtualHostMetadata", "description") {
            Ok(t) => t,
            Err(e) => {
                return Err(e);
            },
        };
        let default_queue_type = match optional_str(v, "VirtualHostMetadata", "default_queue_type") {
            Ok(t) => t,
            Err(e) => {
                return Err(e);
            },
        };
        Ok(VirtualHostMetadata { tags, description, default_queue_type })
    }
}

/// A virtual host as the broker reports it.
#[derive(Debug, Clone)]
pub struct VirtualHost {
    pub name: String,
    pub tags: Option<Vec<String>>,
    pub description: Option<String>,
    pub default_queue_type: Option<String>,
    pub metadata: VirtualHostMetadata,
}

impl VirtualHost {
    /// Whether every field of `v` that a `VirtualHost` needs is there, in its shape.
    pub open spec fn parses(v: serde_json::Value) -> bool {
        &&& str_at(v, "name"@) is Some
        &&& opt_str_list_at(v, "tags"@) is Some
        &&& opt_str_at(v, "description"@) is Some
        &&& opt_str_at(v, "default_queue_type"@) is Some
        &&& json_get(v, "metadata"@) is Some && VirtualHostMetadata::parses(json_get(v, "metadata"@)->0)
    }

    /// Whether each field of `self` holds what `v` reports for it.
    pub open spec fn parsed_from(self, v: serde_json::Value) -> bool {
        &&& self.name@ == str_at(v, "name"@)->0
        &&& opt_views(self.tags) == opt_str_list_at(v, "tags"@)->0
        &&& opt_view(self.description) == opt_str_at(v, "description"@)->0
        &&& opt_view(self.default_queue_type) == opt_str_at(v, "default_queue_type"@)->0
        &&& self.metadata.parsed_from(json_get(v, "metadata"@)->0)
    }

    /// Whether `e` is the error of the first field of `v`, in field order, that
    /// a `VirtualHost` cannot take.
    pub open spec fn first_error(v: serde_json::Value, e: ResponseParseError) -> bool {
        if str_at(v, "name"@) is None {
            e.reports(v, "VirtualHost"@, "name"@)
        } else if opt_str_list_at(v, "tags"@) is None {
            e.reports(v, "VirtualHost"@, "tags"@)
        } else if opt_str_at(v, "description"@) is None {
            e.reports(v, "VirtualHost"@, "description"@)
        } else if opt_str_at(v, "default_queue_type"@) is None {
            e.reports(v, "VirtualHost"@, "default_queue_type"@)
        } else if json_get(v, "metadata"@) is None {
            e.is_missing("VirtualHost"@, "metadata"@)
        } else if !VirtualHostMetadata::parses(json_get(v, "metadata"@)->0) {
            VirtualHostMetadata::first_error(json_get(v, "metadata"@)->0, e)
        } else {
            false
        }
    }

    /// Parses a `VirtualHost` from a response object.
    pub fn from_value(v: &serde_json::Value) -> (r: Result<VirtualHost, ResponseParseError>)
        ensures
            r is Ok <==> Self::parses(*v),
            r is Ok ==> r->Ok_0.parsed_from(*v),
            r is Err ==> Self::first_error(*v, r->Err_0),
            json_get(*v, "name"@) is None ==> r is Err && r->Err_0.is_missing("VirtualHost"@, "name"@),
    {
        let name = match required_str(v, "VirtualHost", "name") {
            Ok(t) => t,
            Err(e) => {
                return Err(e);
            },
        };
        let tags = match optional_str_list(v, "VirtualHost", "tags") {
            Ok(t) => t,
            Err(e) => {
                return Err(e);
            },
        };
        let description = match optional_str(v, "VirtualHost", "description") {
            Ok(t) => t,
            Err(e) => {
                return Err(e);
            },
        };
        let default_queue_type = match optional_str(v, "VirtualHost", "default_queue_type") {
            Ok(t) => t,
            Err(e) => {
                return Err(e);
            },
        };
        let metadata = match get_field(v, "metadata") {
            Some(x) => match VirtualHostMetadata::from_value(&x) {
                Ok(t) => t,
                Err(e) => {
                    return Err(e);
                },
            },
            None => {
                return Err(crate::fields::missing_field("VirtualHost", "metadata"));
            },
        };
        Ok(VirtualHost { name, tags, description, default_queue_type, metadata })
    }
}

/// A user as the broker reports it.
#[derive(Debug, Clone)]
pub struct User {
    pub name: String,
    pub tags: Vec<String>,
    pub password_hash: String,
}

impl User {
    /// Whether every field of `v` that a `User` needs is there, in its shape.
    pub open spec fn parses(v: serde_json::Value) -> bool {
        &&& str_at(v, "name"@) is Some
        &&& str_list_at(v, "tags"@) is Some
        &&& str_at(v, "password_hash"@) is Some
    }

    /// Whether each field of `self` holds what `v` reports for it.
    pub open spec fn parsed_from(self, v: serde_json::Value) -> bool {
        &&& self.name@ == str_at(v, "name"@)->0
        &&& views(self.tags@) == str_list_at(v, "tags"@)->0
        &&& self.password_hash@ == str_at(v, "password_hash"@)->0
    }

    /// Whether `e` is the error of the first field of `v`, in field order, that
    /// a `User` cannot take.
    pub open spec fn first_error(v: serde_json::Value, e: ResponseParseError) -> bool {
        if str_at(v, "name"@) is None {
            e.reports(v, "User"@, "name"@)
        } else if str_list_at(v, "tags"@) is None {
            e.reports(v, "User"@, "tags"@)
        } else if str_at(v, "password_hash"@) is None {
            e.reports(v, "User"@, "password_hash"@)
        } else {
            false
        }
    }

    /// Parses a `User` from a response object.
    pub fn from_value(v: &serde_json::Value) -> (r: Result<User, ResponseParseError>)
        ensures
            r is Ok <==> Self::parses(*v),
            r is Ok ==> r->Ok_0.parsed_from(*v),
            r is Err ==> Self::first_error(*v, r->Err_0),
            json_get(*v, "name"@) is None ==> r is Err && r->Err_0.is_missing("User"@, "name"@),
    {
        let name = match required_str(v, "User", "name") {
            Ok(t) => t,
            Err(e) => {
                return Err(e);
            },
        };
        let tags = match required_str_list(v, "User", "tags") {
            Ok(t) => t,
            Err(e) => {
                return Err(e);
            },
        };
        let password_hash = match required_str(v, "User", "password_hash") {
            Ok(t) => t,
            Err(e) => {
                return Err(e);
            },
        };
        Ok(User { name, tags, password_hash })
    }
}

/// A client connection as the broker reports it.
#[derive(Debug, Clone)]
pub struct Connection {
    pub name: String,
    pub node: String,
    pub state: String,
    pub protocol: String,
    pub username: String,
    pub connected_at: u64,
    pub server_hostname: String,
    pub server_port: u32,
    pub client_hostname: String,
    pub client_port: u32,
    pub channel_max: u16,
    pub channel_count: u16,
    pub client_properties: ClientProperties,
}

impl Connection {
    /// Whether every field of `v` that a `Connection` needs is there, in its shape.
    pub open spec fn parses(v: serde_json::Value) -> bool {
        &&& str_at(v, "name"@) is Some
        &&& str_at(v, "node"@) is Some
        &&& str_at(v, "state"@) is Some
        &&& str_at(v, "protocol"@) is Some
        &&& str_at(v, "user"@) is Some
        &&& u64_at(v, "connected_at"@) is Some
        &&& str_at(v, "host"@) is Some
        &&& u32_at(v, "port"@) is Some
        &&& str_at(v, "peer_host"@) is Some
        &&& u32_at(v, "peer_port"@) is Some
        &&& u16_at(v, "channel_max"@) is Some
        &&& u16_at(v, "channels"@) is Some
        &&& json_get(v, "client_properties"@) is Some && ClientProperties::parses(json_get(v, "client_properties"@)->0)
    }

    /// Whether each field of `self` holds what `v` reports for it.
    pub open spec fn parsed_from(self, v: serde_json::Value) -> bool {
        &&& self.name@ == str_at(v, "name"@)->0
        &&& self.node@ == str_at(v, "node"@)->0
        &&& self.state@ == str_at(v, "state"@)->0
        &&& self.protocol@ == str_at(v, "protocol"@)->0
        &&& self.username@ == str_at(v, "user"@)->0
        &&& self.connected_at == u64_at(v, "connected_at"@)->0
        &&& self.server_hostname@ == str_at(v, "host"@)->0
        &&& self.server_port == u32_at(v, "port"@)->0
        &&& self.client_hostname@ == str_at(v, "peer_host"@)->0
        &&& self.client_port == u32_at(v, "peer_port"@)->0
        &&& self.channel_max == u16_at(v, "channel_max"@)->0
        &&& self.channel_count == u16_at(v, "channels"@)->0
        &&& self.client_properties.parsed_from(json_get(v, "client_properties"@)->0)
    }

    /// Whether `e` is the error of the first field of `v`, in field order, that
    /// a `Connection` cannot take.
    pub open spec fn first_error(v: serde_json::Value, e: ResponseParseError) -> bool {
        if str_at(v, "name"@) is None {
            e.reports(v, "Connection"@, "name"@)
        } else if str_at(v, "node"@) is None {
            e.reports(v, "Connection"@, "node"@)
        } else if str_at(v, "state"@) is None {
            e.reports(v, "Connection"@, "state"@)
        } else if str_at(v, "protocol"@) is None {
            e.reports(v, "Connection"@, "protocol"@)
        } else if str_at(v, "user"@) is None {
            e.reports(v, "Connection"@, "user"@)
        } else if u64_at(v, "connected_at"@) is None {
            e.reports(v, "Connection"@, "connected_at"@)
        } else if str_at(v, "host"@) is None {
            e.reports(v, "Connection"@, "host"@)
        } else if u32_at(v, "port"@) is None {
            e.reports(v, "Connection"@, "port"@)
        } else if str_at(v, "peer_host"@) is None {
            e.reports(v, "Connection"@, "peer_host"@)
        } else if u32_at(v, "peer_port"@) is None {
            e.reports(v, "Connection"@, "peer_port"@)
        } else if u16_at(v, "channel_max"@) is None {
            e.reports(v, "Connection"@, "channel_max"@)
        } else if u16_at(v, "channels"@) is None {
            e.reports(v, "Connection"@, "channels"@)
        } else if json_get(v, "client_properties"@) is None {
            e.is_missing("Connection"@, "client_properties"@)
        } else if !ClientProperties::parses(json_get(v, "client_properties"@)->0) {
            ClientProperties::first_error(json_get(v, "client_properties"@)->0, e)
        } else {
            false
        }
    }

    /// Parses a `Connection` from a response object.
    #[verifier::rlimit(50)]
    pub fn from_value(v: &serde_json::Value) -> (r: Result<Connection, ResponseParseError>)
        ensures
            r is Ok <==> Self::parses(*v),
            r is Ok ==> r->Ok_0.parsed_from(*v),
            r is Err ==> Self::first_error(*v, r->Err_0),
            json_get(*v, "name"@) is None ==> r is Err && r->Err_0.is_missing("Connection"@, "name"@),
    {
        let name = match required_str(v, "Connection", "name") {
            Ok(t) => t,
            Err(e) => {
                return Err(e);
            },
        };
        let node = match required_str(v, "Connection", "node") {
            Ok(t) => t,
            Err(e) => {
                return Err(e);
            },
        };
        let state = match required_str(v, "Connection", "state") {
            Ok(t) => t,
            Err(e) => {
                return Err(e);
            },
        };
        let protocol = match required_str(v, "Connection", "protocol") {
            Ok(t) => t,
            Err(e) => {
                return Err(e);
            },
        };
        let username = match required_str(v, "Connection", "user") {
            Ok(t) => t,
            Err(e) => {
                return Err(e);
            },
        };
        let connected_at = match required_u64(v, "Connection", "connected_at") {
            Ok(t) => t,
            Err(e) => {
                return Err(e);
            },
        };
        let server_hostname = match required_str(v, "Connection", "host") {
            Ok(t) => t,
            Err(e) => {
                return Err(e);
            },
        };
        let server_port = match required_u32(v, "Connection", "port") {
            Ok(t) => t,
            Err(e) => {
                return Err(e);
            },
        };
        let client_hostname = match required_str(v, "Connection", "peer_host") {
            Ok(t) => t,
            Err(e) => {
                return Err(e);
            },
        };
        let client_port = match required_u32(v, "Connection", "peer_port") {
            Ok(t) => t,
            Err(e) => {
                return Err(e);
            },
        };
        let channel_max = match required_u16(v, "Connection", "channel_max") {
            Ok(t) => t,
            Err(e) => {
                return Err(e);
            },
        };
        let channel_count = match required_u16(v, "Connection", "channels") {
            Ok(t) => t,
            Err(e) => {
                return Err(e);
            },
        };
        let client_properties = match get_field(v, "client_properties") {
            Some(x) => match ClientProperties::from_value(&x) {
                Ok(t) => t,
                Err(e) => {
                    return Err(e);
                },
            },
            None => {
                return Err(crate::fields::missing_field("Connection", "client_properties"));
            },
        };
        Ok(Connection { name, node, state, protocol, username, connected_at, server_hostname, server_port, client_hostname, client_port, channel_max, channel_count, client_properties })
    }
}

/// What a client reports of itself when it connects.
#[derive(Debug, Clone)]
pub struct ClientProperties {
    pub connection_name: String,
    pub platform: String,
    pub product: String,
    pub version: String,
    pub capabilities: ClientCapabilities,
}

impl ClientProperties {
    /// Whether every field of `v` that a `ClientProperties` needs is there, in its shape.
    pub open spec fn parses(v: serde_json::Value) -> bool {
        &&& str_at(v, "connection_name"@) is Some
        &&& str_at(v, "platform"@) is Some
        &&& str_at(v, "product"@) is Some
        &&& str_at(v, "version"@) is Some
        &&& json_get(v, "capabilities"@) is Some && ClientCapabilities::parses(json_get(v, "capabilities"@)->0)
    }

    /// Whether each field of `self` holds what `v` reports for it.
    pub open spec fn parsed_from(self, v: serde_json::Value) -> bool {
        &&& self.connection_name@ == str_at(v, "connection_name"@)->0
        &&& self.platform@ == str_at(v, "platform"@)->0
        &&& self.product@ == str_at(v, "product"@)->0
        &&& self.version@ == str_at(v, "version"@)->0
        &&& self.capabilities.parsed_from(json_get(v, "capabilities"@)->0)
    }

    /// Whether `e` is the error of the first field of `v`, in field order, that
    /// a `ClientProperties` cannot take.
    pub open spec fn first_error(v: serde_json::Value, e: ResponseParseError) -> bool {
        if str_at(v, "connection_name"@) is None {
            e.reports(v, "ClientProperties"@, "connection_name"@)
        } else if str_at(v, "platform"@) is None {
            e.reports(v, "ClientProperties"@, "platform"@)
        } else if str_at(v, "product"@) is None {
            e.reports(v, "ClientProperties"@, "product"@)
        } else if str_at(v, "version"@) is None {
            e.reports(v, "ClientProperties"@, "version"@)
        } else if json_get(v, "capabilities"@) is None {
            e.is_missing("ClientProperties"@, "capabilities"@)
        } else if !ClientCapabilities::parses(json_get(v, "capabilities"@)->0) {
            ClientCapabilities::first_error(json_get(v, "capabilities"@)->0, e)
        } else {
            false
        }
    }

    /// Parses a `ClientProperties` from a response object.
    pub fn from_value(v: &serde_json::Value) -> (r: Result<ClientProperties, ResponseParseError>)
        ensures
            r is Ok <==> Self::parses(*v),
            r is Ok ==> r->Ok_0.parsed_from(*v),
            r is Err ==> Self::first_error(*v, r->Err_0),
            json_get(*v, "connection_name"@) is None ==> r is Err && r->Err_0.is_missing("ClientProperties"@, "connection_name"@),
    {
        let connection_name = match required_str(v, "ClientProperties", "connection_name") {
            Ok(t) => t,
            Err(e) => {
                return Err(e);
            },
        };
        let platform = match required_str(v, "ClientProperties", "platform") {
            Ok(t) => t,
            Err(e) => {
                return Err(e);
            },
        };
        let product = match required_str(v, "ClientProperties", "product") {
            Ok(t) => t,
            Err(e) => {
                return Err(e);
            },
        };
        let version = match required_str(v, "ClientProperties", "version") {
            Ok(t) => t,
            Err(e) => {
                return Err(e);
            },
        };
        let capabilities = match get_field(v, "capabilities") {
            Some(x) => match ClientCapabilities::from_value(&x) {
                Ok(t) => t,
                Err(e) => {
                    return Err(e);
                },
            },
            None => {
                return Err(crate::fields::missing_field("ClientProperties", "capabilities"));
            },
        };
        Ok(ClientProperties { connection_name, platform, product, version, capabilities })
    }
}

/// The protocol extensions that a client supports.
#[derive(Debug, Clone)]
pub struct ClientCapabilities {
    pub authentication_failure_close: bool,
    pub basic_nack: bool,
    pub connection_blocked: bool,
    pub consumer_cancel_notify: bool,
    pub exchange_to_exchange_bindings: bool,
    pub publisher_confirms: bool,
}

impl ClientCapabilities {
    /// Whether every field of `v` that a `ClientCapabilities` needs is there, in its shape.
    pub open spec fn parses(v: serde_json::Value) -> bool {
        &&& bool_at(v, "authentication_failure_close"@) is Some
        &&& bool_at(v, "basic.nack"@) is Some
        &&& bool_at(v, "connection.blocked"@) is Some
        &&& bool_at(v, "consumer_cancel_notify"@) is Some
        &&& bool_at(v, "exchange_exchange_bindings"@) is Some
        &&& bool_at(v, "publisher_confirms"@) is Some
    }

    /// Whether each field of `self` holds what `v` reports for it.
    pub open spec fn parsed_from(self, v: serde_json::Value) -> bool {
        &&& self.authentication_failure_close == bool_at(v, "authentication_failure_close"@)->0
        &&& self.basic_nack == bool_at(v, "basic.nack"@)->0
        &&& self.connection_blocked == bool_at(v, "connection.blocked"@)->0
        &&& self.consumer_cancel_notify == bool_at(v, "consumer_cancel_notify"@)->0
        &&& self.exchange_to_exchange_bindings == bool_at(v, "exchange_exchange_bindings"@)->0
        &&& self.publisher_confirms == bool_at(v, "publisher_confirms"@)->0
    }

    /// Whether `e` is the error of the first field of `v`, in field order, that
    /// a `ClientCapabilities` cannot take.
    pub open spec fn first_error(v: serde_json::Value, e: ResponseParseError) -> bool {
        if bool_at(v, "authentication_failure_close"@) is None {
            e.reports(v, "ClientCapabilities"@, "authentication_failure_close"@)
        } else if bool_at(v, "basic.nack"@) is None {
            e.reports(v, "ClientCapabilities"@, "basic.nack"@)
        } else if bool_at(v, "connection.blocked"@) is None {
            e.reports(v, "ClientCapabilities"@, "connection.blocked"@)
        } else if bool_at(v, "consumer_cancel_notify"@) is None {
            e.reports(v, "ClientCapabilities"@, "consumer_cancel_notify"@)
        } else if bool_at(v, "exchange_exchange_bindings"@) is None {
            e.reports(v, "ClientCapabilities"@, "exchange_exchange_bindings"@)
        } else if bool_at(v, "publisher_confirms"@) is None {
            e.reports(v, "ClientCapabilities"@, "publisher_confirms"@)
        } else {
            false
        }
    }

    /// Parses a `ClientCapabilities` from a response object.
    pub fn from_value(v: &serde_json::Value) -> (r: Result<ClientCapabilities, ResponseParseError>)
        ensures
            r is Ok <==> Self::parses(*v),
            r is Ok ==> r->Ok_0.parsed_from(*v),
            r is Err ==> Self::first_error(*v, r->Err_0),
            json_get(*v, "authentication_failure_close"@) is None ==> r is Err && r->Err_0.is_missing("ClientCapabilities"@, "authentication_failure_close"@),
    {
        let authentication_failure_close = match required_bool(v, "ClientCapabilities", "authentication_failure_close") {
            Ok(t) => t,
            Err(e) => {
                return Err(e);
            },
        };
        let basic_nack = match required_bool(v, "ClientCapabilities", "basic.nack") {
            Ok(t) => t,
            Err(e) => {
                return Err(e);
            },
        };
        let connection_blocked = match required_bool(v, "ClientCapabilities", "connection.blocked") {
            Ok(t) => t,
            Err(e) => {
                return Err(e);
            },
        };
        let consumer_cancel_notify = match required_bool(v, "ClientCapabilities", "consumer_cancel_notify") {
            Ok(t) => t,
            Err(e) => {
                return Err(e);
            },
        };
        let exchange_to_exchange_bindings = match required_bool(v, "ClientCapabilities", "exchange_exchange_bindings") {
            Ok(t) => t,
            Err(e) => {
                return Err(e);
            },
        };
        let publisher_confirms = match required_bool(v, "ClientCapabilities", "publisher_confirms") {
            Ok(t) => t,
            Err(e) => {
                return Err(e);
            },
        };
        Ok(ClientCapabilities { authentication_failure_close, basic_nack, connection_blocked, consumer_cancel_notify, exchange_to_exchange_bindings, publisher_confirms })
    }
}

/// A connection of one user.
#[derive(Debug, Clone)]
pub struct UserConnection {
    pub name: String,
    pub node: String,
    pub username: String,
    pub vhost: String,
}

impl UserConnection {
    /// Whether every field of `v` that a `UserConnection` needs is there, in its shape.
    pub open spec fn parses(v: serde_json::Value) -> bool {
        &&& str_at(v, "name"@) is Some
        &&& str_at(v, "node"@) is Some
        &&& str_at(v, "user"@) is Some
        &&& str_at(v, "vhost"@) is Some
    }

    /// Whether each field of `self` holds what `v` reports for it.
    pub open spec fn parsed_from(self, v: serde_json::Value) -> bool {
        &&& self.name@ == str_at(v, "name"@)->0
        &&& self.node@ == str_at(v, "node"@)->0
        &&& self.username@ == str_at(v, "user"@)->0
        &&& self.vhost@ == str_at(v, "vhost"@)->0
    }

    /// Whether `e` is the error of the first field of `v`, in field order, that
    /// a `UserConnection` cannot take.
    pub open spec fn first_error(v: serde_json::Value, e: ResponseParseError) -> bool {
        if str_at(v, "name"@) is None {
            e.reports(v, "UserConnection"@, "name"@)
        } else if str_at(v, "node"@) is None {
            e.reports(v, "UserConnection"@, "node"@)
        } else if str_at(v, "user"@) is None {
            e.reports(v, "UserConnection"@, "user"@)
        } else if str_at(v, "vhost"@) is None {
            e.reports(v, "UserConnection"@, "vhost"@)
        } else {
            false
        }
    }

    /// Parses a `UserConnection` from a response object.
    pub fn from_value(v: &serde_json::Value) -> (r: Result<UserConnection, ResponseParseError>)
        ensures
            r is Ok <==> Self::parses(*v),
            r is Ok ==> r->Ok_0.parsed_from(*v),
            r is Err ==> Self::first_error(*v, r->Err_0),
            json_get(*v, "name"@) is None ==> r is Err && r->Err_0.is_missing("UserConnection"@, "name"@),
    {
        let name = match required_str(v, "UserConnection", "name") {
            Ok(t) => t,
            Err(e) => {
                return Err(e);
            },
        };
        let node = match required_str(v, "UserConnection", "node") {
            Ok(t) => t,
            Err(e) => {
                return Err(e);
            },
        };
        let username = match required_str(v, "UserConnection", "user") {
            Ok(t) => t,
            Err(e) => {
                return Err(e);
            },
        };
        let vhost = match required_str(v, "UserConnection", "vhost") {
            Ok(t) => t,
            Err(e) => {
                return Err(e);
            },
        };
        Ok(UserConnection { name, node, username, vhost })
    }
}

/// A channel as the broker reports it.
#[derive(Debug, Clone)]
pub struct Channel {
    pub id: u32,
    pub name: String,
    pub connection_details: ConnectionDetails,
    pub vhost: String,
    pub state: String,
    pub consumer_count: u32,
    pub has_publisher_confirms_enabled: bool,
    pub prefetch_count: u32,
    pub messages_unacknowledged: u32,
    pub messages_unconfirmed: u32,
}

impl Channel {
    /// Whether every field of `v` that a `Channel` needs is there, in its shape.
    pub open spec fn parses(v: serde_json::Value) -> bool {
        &&& u32_at(v, "number"@) is Some
        &&& str_at(v, "name"@) is Some
        &&& json_get(v, "connection_details"@) is Some && ConnectionDetails::parses(json_get(v, "connection_details"@)->0)
        &&& str_at(v, "vhost"@) is Some
        &&& str_at(v, "state"@) is Some
        &&& u32_at(v, "consumer_count"@) is Some
        &&& bool_at(v, "confirm"@) is Some
        &&& u32_at(v, "prefetch_count"@) is Some
        &&& u32_at(v, "messages_unacknowledged"@) is Some
        &&& u32_at(v, "messages_unconfirmed"@) is Some
    }

    /// Whether each field of `self` holds what `v` reports for it.
    pub open spec fn parsed_from(self, v: serde_json::Value) -> bool {
        &&& self.id == u32_at(v, "number"@)->0
        &&& self.name@ == str_at(v, "name"@)->0
        &&& self.connection_details.parsed_from(json_get(v, "connection_details"@)->0)
        &&& self.vhost@ == str_at(v, "vhost"@)->0
        &&& self.state@ == str_at(v, "state"@)->0
        &&& self.consumer_count == u32_at(v, "consumer_count"@)->0
        &&& self.has_publisher_confirms_enabled == bool_at(v, "confirm"@)->0
        &&& self.prefetch_count == u32_at(v, "prefetch_count"@)->0
        &&& self.messages_unacknowledged == u32_at(v, "messages_unacknowledged"@)->0
        &&& self.messages_unconfirmed == u32_at(v, "messages_unconfirmed"@)->0
    }

    /// Whether `e` is the error of the first field of `v`, in field order, that
    /// a `Channel` cannot take.
    pub open spec fn first_error(v: serde_json::Value, e: ResponseParseError) -> bool {
        if u32_at(v, "number"@) is None {
            e.reports(v, "Channel"@, "number"@)
        } else if str_at(v, "name"@) is None {
            e.reports(v, "Channel"@, "name"@)
        } else if json_get(v, "connection_details"@) is None {
            e.is_missing("Channel"@, "connection_details"@)
        } else if !ConnectionDetails::parses(json_get(v, "connection_details"@)->0) {
            ConnectionDetails::first_error(json_get(v, "connection_details"@)->0, e)
        } else if str_at(v, "vhost"@) is None {
            e.reports(v, "Channel"@, "vhost"@)
        } else if str_at(v, "state"@) is None {
            e.reports(v, "Channel"@, "state"@)
        } else if u32_at(v, "consumer_count"@) is None {
            e.reports(v, "Channel"@, "consumer_count"@)
        } else if bool_at(v, "confirm"@) is None {
            e.reports(v, "Channel"@, "confirm"@)
        } else if u32_at(v, "prefetch_count"@) is None {
            e.reports(v, "Channel"@, "prefetch_count"@)
        } else if u32_at(v, "messages_unacknowledged"@) is None {
            e.reports(v, "Channel"@, "messages_unacknowledged"@)
        } else if u32_at(v, "messages_unconfirmed"@) is None {
            e.reports(v, "Channel"@, "messages_unconfirmed"@)
        } else {
            false
        }
    }

    /// Parses a `Channel` from a response object.
    pub fn from_value(v: &serde_json::Value) -> (r: Result<Channel, ResponseParseError>)
        ensures
            r is Ok <==> Self::parses(*v),
            r is Ok ==> r->Ok_0.parsed_from(*v),
            r is Err ==> Self::first_error(*v, r->Err_0),
            json_get(*v, "number"@) is None ==> r is Err && r->Err_0.is_missing("Channel"@, "number"@),
    {
        let id = match required_u32(v, "Channel", "number") {
            Ok(t) => t,
            Err(e) => {
                return Err(e);
            },
        };
        let name = match required_str(v, "Channel", "name") {
            Ok(t) => t,
            Err(e) => {
                return Err(e);
            },
        };
        let connection_details = match get_field(v, "connection_details") {
            Some(x) => match ConnectionDetails::from_value(&x) {
                Ok(t) => t,
                Err(e) => {
                    return Err(e);
                },
            },
            None => {
                return Err(crate::fields::missing_field("Channel", "connection_details"));
            },
        };
        let vhost = match required_str(v, "Channel", "vhost") {
            Ok(t) => t,
            Err(e) => {
                return Err(e);
            },
        };
        let state = match required_str(v, "Channel", "state") {
            Ok(t) => t,
            Err(e) => {
                return Err(e);
            },
        };
        let consumer_count = match required_u32(v, "Channel", "consumer_count") {
            Ok(t) => t,
            Err(e) => {
                return Err(e);
            },
        };
        let has_publisher_confirms_enabled = match required_bool(v, "Channel", "confirm") {
            Ok(t) => t,
            Err(e) => {
                return Err(e);
            },
        };
        let prefetch_count = match required_u32(v, "Channel", "prefetch_count") {
            Ok(t) => t,
            Err(e) => {
                return Err(e);
            },
        };
        let messages_unacknowledged = match required_u32(v, "Channel", "messages_unacknowledged") {
            Ok(t) => t,
            Err(e) => {
                return Err(e);
            },
        };
        let messages_unconfirmed = match required_u32(v, "Channel", "messages_unconfirmed") {
            Ok(t) => t,
            Err(e) => {
                return Err(e);
            },
        };
        Ok(Channel { id, name, connection_details, vhost, state, consumer_count, has_publisher_confirms_enabled, prefetch_count, messages_unacknowledged, messages_unconfirmed })
    }
}

/// The connection that a channel belongs to.
#[derive(Debug, Clone)]
pub struct ConnectionDetails {
    pub name: String,
    pub client_hostname: String,
    pub client_port: u32,
}

impl ConnectionDetails {
    /// Whether every field of `v` that a `ConnectionDetails` needs is there, in its shape.
    pub open spec fn parses(v: serde_json::Value) -> bool {
        &&& str_at(v, "name"@) is Some
        &&& str_at(v, "peer_host"@) is Some
        &&& u32_at(v, "peer_port"@) is Some
    }

    /// Whether each field of `self` holds what `v` reports for it.
    pub open spec fn parsed_from(self, v: serde_json::Value) -> bool {
        &&& self.name@ == str_at(v, "name"@)->0
        &&& self.client_hostname@ == str_at(v, "peer_host"@)->0
        &&& self.client_port == u32_at(v, "peer_port"@)->0
    }

    /// Whether `e` is the error of the first field of `v`, in field order, that
    /// a `ConnectionDetails` cannot take.
    pub open spec fn first_error(v: serde_json::Value, e: ResponseParseError) -> bool {
        if str_at(v, "name"@) is None {
            e.reports(v, "ConnectionDetails"@, "name"@)
        } else if str_at(v, "peer_host"@) is None {
            e.reports(v, "ConnectionDetails"@, "peer_host"@)
        } else if u32_at(v, "peer_port"@) is None {
            e.reports(v, "ConnectionDetails"@, "peer_port"@)
        } else {
            false
        }
    }

    /// Parses a `ConnectionDetails` from a response object.
    pub fn from_value(v: &serde_json::Value) -> (r: Result<ConnectionDetails, ResponseParseError>)
        ensures
            r is Ok <==> Self::parses(*v),
            r is Ok ==> r->Ok_0.parsed_from(*v),
            r is Err ==> Self::first_error(*v, r->Err_0),
            json_get(*v, "name"@) is None ==> r is Err && r->Err_0.is_missing("ConnectionDetails"@, "name"@),
    {
        let name = match required_str(v, "ConnectionDetails", "name") {
            Ok(t) => t,
            Err(e) => {
                return Err(e);
            },
        };
        let client_hostname = match required_str(v, "ConnectionDetails", "peer_host") {
            Ok(t) => t,
            Err(e) => {
                return Err(e);
            },
        };
        let client_port = match required_u32(v, "ConnectionDetails", "peer_port") {
            Ok(t) => t,
            Err(e) => {
                return Err(e);
            },
        };
        Ok(ConnectionDetails { name, client_hostname, client_port })
    }
}

/// A consumer as the broker reports it.
#[derive(Debug, Clone)]
pub struct Consumer {
    pub consumer_tag: String,
    pub active: bool,
    pub exclusive: bool,
    pub manual_ack: bool,
    pub queue: NameAndVirtualHost,
}

impl Consumer {
    /// Whether every field of `v` that a `Consumer` needs is there, in its shape.
    pub open spec fn parses(v: serde_json::Value) -> bool {
        &&& str_at(v, "consumer_tag"@) is Some
        &&& bool_at(v, "active"@) is Some
        &&& bool_at(v, "exclusive"@) is Some
        &&& bool_at(v, "ack_required"@) is Some
        &&& json_get(v, "queue"@) is Some && NameAndVirtualHost::parses(json_get(v, "queue"@)->0)
    }

    /// Whether each field of `self` holds what `v` reports for it.
    pub open spec fn parsed_from(self, v: serde_json::Value) -> bool {
        &&& self.consumer_tag@ == str_at(v, "consumer_tag"@)->0
        &&& self.active == bool_at(v, "active"@)->0
        &&& self.exclusive == bool_at(v, "exclusive"@)->0
        &&& self.manual_ack == bool_at(v, "ack_required"@)->0
        &&& self.queue.parsed_from(json_get(v, "queue"@)->0)
    }

    /// Whether `e` is the error of the first field of `v`, in field order, that
    /// a `Consumer` cannot take.
    pub open spec fn first_error(v: serde_json::Value, e: ResponseParseError) -> bool {
        if str_at(v, "consumer_tag"@) is None {
            e.reports(v, "Consumer"@, "consumer_tag"@)
        } else if bool_at(v, "active"@) is None {
            e.reports(v, "Consumer"@, "active"@)
        } else if bool_at(v, "exclusive"@) is None {
            e.reports(v, "Consumer"@, "exclusive"@)
        } else if bool_at(v, "ack_required"@) is None {
            e.reports(v, "Consumer"@, "ack_required"@)
        } else if json_get(v, "queue"@) is None {
            e.is_missing("Consumer"@, "queue"@)
        } else if !NameAndVirtualHost::parses(json_get(v, "queue"@)->0) {
            NameAndVirtualHost::first_error(json_get(v, "queue"@)->0, e)
        } else {
            false
        }
    }

    /// Parses a `Consumer` from a response object.
    pub fn from_value(v: &serde_json::Value) -> (r: Result<Consumer, ResponseParseError>)
        ensures
            r is Ok <==> Self::parses(*v),
            r is Ok ==> r->Ok_0.parsed_from(*v),
            r is Err ==> Self::first_error(*v, r->Err_0),
            json_get(*v, "consumer_tag"@) is None ==> r is Err && r->Err_0.is_missing("Consumer"@, "consumer_tag"@),
    {
        let consumer_tag = match required_str(v, "Consumer", "consumer_tag") {
            Ok(t) => t,
            Err(e) => {
                return Err(e);
            },
        };
        let active = match required_bool(v, "Consumer", "active") {
            Ok(t) => t,
            Err(e) => {
                return Err(e);
            },
        };
        let exclusive = match required_bool(v, "Consumer", "exclusive") {
            Ok(t) => t,
            Err(e) => {
                return Err(e);
            },
        };
        let manual_ack = match required_bool(v, "Consumer", "ack_required") {
            Ok(t) => t,
            Err(e) => {
                return Err(e);
            },
        };
        let queue = match get_field(v, "queue") {
            Some(x) => match NameAndVirtualHost::from_value(&x) {
                Ok(t) => t,
                Err(e) => {
                    return Err(e);
                },
            },
            None => {
                return Err(crate::fields::missing_field("Consumer", "queue"));
            },
        };
        Ok(Consumer { consumer_tag, active, exclusive, manual_ack, queue })
    }
}

/// A resource named within a virtual host.
#[derive(Debug, Clone)]
pub struct NameAndVirtualHost {
    pub name: String,
    pub vhost: String,
}

impl NameAndVirtualHost {
    /// Whether every field of `v` that a `NameAndVirtualHost` needs is there, in its shape.
    pub open spec fn parses(v: serde_json::Value) -> bool {
        &&& str_at(v, "name"@) is Some
        &&& str_at(v, "vhost"@) is Some
    }

    /// Whether each field of `self` holds what `v` reports for it.
    pub open spec fn parsed_from(self, v: serde_json::Value) -> bool {
        &&& self.name@ == str_at(v, "name"@)->0
        &&& self.vhost@ == str_at(v, "vhost"@)->0
    }

    /// Whether `e` is the error of the first field of `v`, in field order, that
    /// a `NameAndVirtualHost` cannot take.
    pub open spec fn first_error(v: serde_json::Value, e: ResponseParseError) -> bool {
        if str_at(v, "name"@) is None {
            e.reports(v, "NameAndVirtualHost"@, "name"@)
        } else if str_at(v, "vhost"@) is None {
            e.reports(v, "NameAndVirtualHost"@, "vhost"@)
        } else {
            false
        }
    }

    /// Parses a `NameAndVirtualHost` from a response object.
    pub fn from_value(v: &serde_json::Value) -> (r: Result<NameAndVirtualHost, ResponseParseError>)
        ensures
            r is Ok <==> Self::parses(*v),
            r is Ok ==> r->Ok_0.parsed_from(*v),
            r is Err ==> Self::first_error(*v, r->Err_0),
            json_get(*v, "name"@) is None ==> r is Err && r->Err_0.is_missing("NameAndVirtualHost"@, "name"@),
    {
        let name = match required_str(v, "NameAndVirtualHost", "name") {
            Ok(t) => t,
            Err(e) => {
                return Err(e);
            },
        };
        let vhost = match required_str(v, "NameAndVirtualHost", "vhost") {
            Ok(t) => t,
            Err(e) => {
                return Err(e);
            },
        };
        Ok(NameAndVirtualHost { name, vhost })
    }
}

/// A queue as the broker reports it. Only replicated queues (quorum queues
/// and streams) report a leader, members and online members.
#[derive(Debug, Clone)]
pub struct QueueInfo {
    pub name: String,
    pub vhost: String,
    pub queue_type: String,
    pub durable: bool,
    pub auto_delete: bool,
    pub exclusive: bool,
    pub arguments: XArguments,
    pub node: String,
    pub state: String,
    pub leader: Option<String>,
    pub members: Option<Vec<String>>,
    pub online: Option<Vec<String>>,
    pub memory: u64,
    pub consumer_count: u16,
    pub exclusive_consumer_tag: Option<String>,
    pub policy: Option<String>,
    pub message_bytes: u64,
    pub message_bytes_persistent: u64,
    pub message_bytes_ram: u64,
    pub message_bytes_ready: u64,
    pub message_bytes_unacknowledged: u64,
    pub message_count: u64,
    pub on_disk_message_count: u64,
    pub in_memory_message_count: u64,
    pub unacknowledged_message_count: u64,
}

impl QueueInfo {
    /// Whether every field of `v` that a `QueueInfo` needs is there, in its shape.
    pub open spec fn parses(v: serde_json::Value) -> bool {
        &&& str_at(v, "name"@) is Some
        &&& str_at(v, "vhost"@) is Some
        &&& str_at(v, "type"@) is Some
        &&& bool_at(v, "durable"@) is Some
        &&& bool_at(v, "auto_delete"@) is Some
        &&& bool_at(v, "exclusive"@) is Some
        &&& map_at(v, "arguments"@) is Some
        &&& str_at(v, "node"@) is Some
        &&& str_at(v, "state"@) is Some
        &&& opt_str_at(v, "leader"@) is Some
        &&& opt_str_list_at(v, "members"@) is Some
        &&& opt_str_list_at(v, "online"@) is Some
        &&& u64_at(v, "memory"@) is Some
        &&& u16_at(v, "consumers"@) is Some
        &&& opt_str_at(v, "exclusive_consumer_tag"@) is Some
        &&& opt_str_at(v, "policy"@) is Some
        &&& u64_at(v, "message_bytes"@) is Some
        &&& u64_at(v, "message_bytes_persistent"@) is Some
        &&& u64_at(v, "message_bytes_ram"@) is Some
        &&& u64_at(v, "message_bytes_ready"@) is Some
        &&& u64_at(v, "message_bytes_unacknowledged"@) is Some
        &&& u64_at(v, "messages"@) is Some
        &&& u64_at(v, "messages_persistent"@) is Some
        &&& u64_at(v, "messages_ram"@) is Some
        &&& u64_at(v, "messages_unacknowledged"@) is Some
    }

    /// Whether each field of `self` holds what `v` reports for it.
    pub open spec fn parsed_from(self, v: serde_json::Value) -> bool {
        &&& self.name@ == str_at(v, "name"@)->0
        &&& self.vhost@ == str_at(v, "vhost"@)->0
        &&& self.queue_type@ == str_at(v, "type"@)->0
        &&& self.durable == bool_at(v, "durable"@)->0
        &&& self.auto_delete == bool_at(v, "auto_delete"@)->0
        &&& self.exclusive == bool_at(v, "exclusive"@)->0
        &&& entries(self.arguments) == map_at(v, "arguments"@)->0
        &&& self.node@ == str_at(v, "node"@)->0
        &&& self.state@ == str_at(v, "state"@)->0
        &&& opt_view(self.leader) == opt_str_at(v, "leader"@)->0
        &&& opt_views(self.members) == opt_str_list_at(v, "members"@)->0
        &&& opt_views(self.online) == opt_str_list_at(v, "online"@)->0
        &&& self.memory == u64_at(v, "memory"@)->0
        &&& self.consumer_count == u16_at(v, "consumers"@)->0
        &&& opt_view(self.exclusive_consumer_tag) == opt_str_at(v, "exclusive_consumer_tag"@)->0
        &&& opt_view(self.policy) == opt_str_at(v, "policy"@)->0
        &&& self.message_bytes == u64_at(v, "message_bytes"@)->0
        &&& self.message_bytes_persistent == u64_at(v, "message_bytes_persistent"@)->0
        &&& self.message_bytes_ram == u64_at(v, "message_bytes_ram"@)->0
        &&& self.message_bytes_ready == u64_at(v, "message_bytes_ready"@)->0
        &&& self.message_bytes_unacknowledged == u64_at(v, "message_bytes_unacknowledged"@)->0
        &&& self.message_count == u64_at(v, "messages"@)->0
        &&& self.on_disk_message_count == u64_at(v, "messages_persistent"@)->0
        &&& self.in_memory_message_count == u64_at(v, "messages_ram"@)->0
        &&& self.unacknowledged_message_count == u64_at(v, "messages_unacknowledged"@)->0
    }

    /// Whether `e` is the error of the first field of `v`, in field order, that
    /// a `QueueInfo` cannot take.
    pub open spec fn first_error(v: serde_json::Value, e: ResponseParseError) -> bool {
        if str_at(v, "name"@) is None {
            e.reports(v, "QueueInfo"@, "name"@)
        } else if str_at(v, "vhost"@) is None {
            e.reports(v, "QueueInfo"@, "vhost"@)
        } else if str_at(v, "type"@) is None {
            e.reports(v, "QueueInfo"@, "type"@)
        } else if bool_at(v, "durable"@) is None {
            e.reports(v, "QueueInfo"@, "durable"@)
        } else if bool_at(v, "auto_delete"@) is None {
            e.reports(v, "QueueInfo"@, "auto_delete"@)
        } else if bool_at(v, "exclusive"@) is None {
            e.reports(v, "QueueInfo"@, "exclusive"@)
        } else if map_at(v, "arguments"@) is None {
            e.reports(v, "QueueInfo"@, "arguments"@)
        } else if str_at(v, "node"@) is None {
            e.reports(v, "QueueInfo"@, "node"@)
        } else if str_at(v, "state"@) is None {
            e.reports(v, "QueueInfo"@, "state"@)
        } else if opt_str_at(v, "leader"@) is None {
            e.reports(v, "QueueInfo"@, "leader"@)
        } else if opt_str_list_at(v, "members"@) is None {
            e.reports(v, "QueueInfo"@, "members"@)
        } else if opt_str_list_at(v, "online"@) is None {
            e.reports(v, "QueueInfo"@, "online"@)
        } else if u64_at(v, "memory"@) is None {
            e.reports(v, "QueueInfo"@, "memory"@)
        } else if u16_at(v, "consumers"@) is None {
            e.reports(v, "QueueInfo"@, "consumers"@)
        } else if opt_str_at(v, "exclusive_consumer_tag"@) is None {
            e.reports(v, "QueueInfo"@, "exclusive_consumer_tag"@)
        } else if opt_str_at(v, "policy"@) is None {
            e.reports(v, "QueueInfo"@, "policy"@)
        } else if u64_at(v, "message_bytes"@) is None {
            e.reports(v, "QueueInfo"@, "message_bytes"@)
        } else if u64_at(v, "message_bytes_persistent"@) is None {
            e.reports(v, "QueueInfo"@, "message_bytes_persistent"@)
        } else if u64_at(v, "message_bytes_ram"@) is None {
            e.reports(v, "QueueInfo"@, "message_bytes_ram"@)
        } else if u64_at(v, "message_bytes_ready"@) is None {
            e.reports(v, "QueueInfo"@, "message_bytes_ready"@)
        } else if u64_at(v, "message_bytes_unacknowledged"@) is None {
            e.reports(v, "QueueInfo"@, "message_bytes_unacknowledged"@)
        } else if u64_at(v, "messages"@) is None {
            e.reports(v, "QueueInfo"@, "messages"@)
        } else if u64_at(v, "messages_persistent"@) is None {
            e.reports(v, "QueueInfo"@, "messages_persistent"@)
        } else if u64_at(v, "messages_ram"@) is None {
            e.reports(v, "QueueInfo"@, "messages_ram"@)
        } else if u64_at(v, "messages_unacknowledged"@) is None {
            e.reports(v, "QueueInfo"@, "messages_unacknowledged"@)
        } else {
            false
        }
    }

    /// Parses a `QueueInfo` from a response object.
    #[verifier::rlimit(50)]
    pub fn from_value(v: &serde_json::Value) -> (r: Result<QueueInfo, ResponseParseError>)
        ensures
            r is Ok <==> Self::parses(*v),
            r is Ok ==> r->Ok_0.parsed_from(*v),
            r is Err ==> Self::first_error(*v, r->Err_0),
            json_get(*v, "name"@) is None ==> r is Err && r->Err_0.is_missing("QueueInfo"@, "name"@),
            r is Ok && crate::fields::is_absent(*v, "leader"@) ==> r->Ok_0.leader is None,
            r is Ok && crate::fields::is_absent(*v, "members"@) ==> r->Ok_0.members is None,
            r is Ok && crate::fields::is_absent(*v, "online"@) ==> r->Ok_0.online is None,
            r is Ok && !crate::fields::is_absent(*v, "leader"@) ==> r->Ok_0.leader is Some,
            r is Ok && !crate::fields::is_absent(*v, "members"@) ==> r->Ok_0.members is Some,
            r is Ok && !crate::fields::is_absent(*v, "online"@) ==> r->Ok_0.online is Some,
    {
        let name = match required_str(v, "QueueInfo", "name") {
            Ok(t) => t,
            Err(e) => {
                return Err(e);
            },
        };
        let vhost = match required_str(v, "QueueInfo", "vhost") {
            Ok(t) => t,
            Err(e) => {
                return Err(e);
            },
        };
        let queue_type = match required_str(v, "QueueInfo", "type") {
            Ok(t) => t,
            Err(e) => {
                return Err(e);
            },
        };
        let durable = match required_bool(v, "QueueInfo", "durable") {
            Ok(t) => t,
            Err(e) => {
                return Err(e);
            },
        };
        let auto_delete = match required_bool(v, "QueueInfo", "auto_delete") {
            Ok(t) => t,
            Err(e) => {
                return Err(e);
            },
        };
        let exclusive = match required_bool(v, "QueueInfo", "exclusive") {
            Ok(t) => t,
            Err(e) => {
                return Err(e);
            },
        };
        let arguments = match required_map(v, "QueueInfo", "arguments") {
            Ok(t) => t,
            Err(e) => {
                return Err(e);
            },
        };
        let node = match required_str(v, "QueueInfo", "node") {
            Ok(t) => t,
            Err(e) => {
                return Err(e);
            },
        };
        let state = match required_str(v, "QueueInfo", "state") {
            Ok(t) => t,
            Err(e) => {
                return Err(e);
            },
        };
        let leader = match optional_str(v, "QueueInfo", "leader") {
            Ok(t) => t,
            Err(e) => {
                return Err(e);
            },
        };
        let members = match optional_str_list(v, "QueueInfo", "members") {
            Ok(t) => t,
            Err(e) => {
                return Err(e);
            },
        };
        let online = match optional_str_list(v, "QueueInfo", "online") {
            Ok(t) => t,
            Err(e) => {
                return Err(e);
            },
        };
        let memory = match required_u64(v, "QueueInfo", "memory") {
            Ok(t) => t,
            Err(e) => {
                return Err(e);
            },
        };
        let consumer_count = match required_u16(v, "QueueInfo", "consumers") {
            Ok(t) => t,
            Err(e) => {
                return Err(e);
            },
        };
        let exclusive_consumer_tag = match optional_str(v, "QueueInfo", "exclusive_consumer_tag") {
            Ok(t) => t,
            Err(e) => {
                return Err(e);
            },
        };
        let policy = match optional_str(v, "QueueInfo", "policy") {
            Ok(t) => t,
            Err(e) => {
                return Err(e);
            },
        };
        let message_bytes = match required_u64(v, "QueueInfo", "message_bytes") {
            Ok(t) => t,
            Err(e) => {
                return Err(e);
            },
        };
        let message_bytes_persistent = match required_u64(v, "QueueInfo", "message_bytes_persistent") {
            Ok(t) => t,
            Err(e) => {
                return Err(e);
            },
        };
        let message_bytes_ram = match required_u64(v, "QueueInfo", "message_bytes_ram") {
            Ok(t) => t,
            Err(e) => {
                return Err(e);
            },
        };
        let message_bytes_ready = match required_u64(v, "QueueInfo", "message_bytes_ready") {
            Ok(t) => t,
            Err(e) => {
                return Err(e);
            },
        };
        let message_bytes_unacknowledged = match required_u64(v, "QueueInfo", "message_bytes_unacknowledged") {
            Ok(t) => t,
            Err(e) => {
                return Err(e);
            },
        };
        let message_count = match required_u64(v, "QueueInfo", "messages") {
            Ok(t) => t,
            Err(e) => {
                return Err(e);
            },
        };
        let on_disk_message_count = match required_u64(v, "QueueInfo", "messages_persistent") {
            Ok(t) => t,
            Err(e) => {
                return Err(e);
            },
        };
        let in_memory_message_count = match required_u64(v, "QueueInfo", "messages_ram") {
            Ok(t) => t,
            Err(e) => {
                return Err(e);
            },
        };
        let unacknowledged_message_count = match required_u64(v, "QueueInfo", "messages_unacknowledged") {
            Ok(t) => t,
            Err(e) => {
                return Err(e);
            },
        };
        Ok(QueueInfo { name, vhost, queue_type, durable, auto_delete, exclusive, arguments, node, state, leader, members, online, memory, consumer_count, exclusive_consumer_tag, policy, message_bytes, message_bytes_persistent, message_bytes_ram, message_bytes_ready, message_bytes_unacknowledged, message_count, on_disk_message_count, in_memory_message_count, unacknowledged_message_count })
    }
}

/// An exchange as the broker reports it.
#[derive(Debug, Clone)]
pub struct ExchangeInfo {
    pub name: String,
    pub vhost: String,
    pub exchange_type: String,
    pub durable: bool,
    pub auto_delete: bool,
    pub arguments: XArguments,
}

impl ExchangeInfo {
    /// Whether every field of `v` that a `ExchangeInfo` needs is there, in its shape.
    pub open spec fn parses(v: serde_json::Value) -> bool {
        &&& str_at(v, "name"@) is Some
        &&& str_at(v, "vhost"@) is Some
        &&& str_at(v, "type"@) is Some
        &&& bool_at(v, "durable"@) is Some
        &&& bool_at(v, "auto_delete"@) is Some
        &&& map_at(v, "arguments"@) is Some
    }

    /// Whether each field of `self` holds what `v` reports for it.
    pub open spec fn parsed_from(self, v: serde_json::Value) -> bool {
        &&& self.name@ == str_at(v, "name"@)->0
        &&& self.vhost@ == str_at(v, "vhost"@)->0
        &&& self.exchange_type@ == str_at(v, "type"@)->0
        &&& self.durable == bool_at(v, "durable"@)->0
        &&& self.auto_delete == bool_at(v, "auto_delete"@)->0
        &&& entries(self.arguments) == map_at(v, "arguments"@)->0
    }

    /// Whether `e` is the error of the first field of `v`, in field order, that
    /// a `ExchangeInfo` cannot take.
    pub open spec fn first_error(v: serde_json::Value, e: ResponseParseError) -> bool {
        if str_at(v, "name"@) is None {
            e.reports(v, "ExchangeInfo"@, "name"@)
        } else if str_at(v, "vhost"@) is None {
            e.reports(v, "ExchangeInfo"@, "vhost"@)
        } else if str_at(v, "type"@) is None {
            e.reports(v, "ExchangeInfo"@, "type"@)
        } else if bool_at(v, "durable"@) is None {
            e.reports(v, "ExchangeInfo"@, "durable"@)
        } else if bool_at(v, "auto_delete"@) is None {
            e.reports(v, "ExchangeInfo"@, "auto_delete"@)
        } else if map_at(v, "arguments"@) is None {
            e.reports(v, "ExchangeInfo"@, "arguments"@)
        } else {
            false
        }
    }

    /// Parses a `ExchangeInfo` from a response object.
    pub fn from_value(v: &serde_json::Value) -> (r: Result<ExchangeInfo, ResponseParseError>)
        ensures
            r is Ok <==> Self::parses(*v),
            r is Ok ==> r->Ok_0.parsed_from(*v),
            r is Err ==> Self::first_error(*v, r->Err_0),
            json_get(*v, "name"@) is None ==> r is Err && r->Err_0.is_missing("ExchangeInfo"@, "name"@),
    {
        let name = match required_str(v, "ExchangeInfo", "name") {
            Ok(t) => t,
            Err(e) => {
                return Err(e);
            },
        };
        let vhost = match required_str(v, "ExchangeInfo", "vhost") {
            Ok(t) => t,
            Err(e) => {
                return Err(e);
            },
        };
        let exchange_type = match required_str(v, "ExchangeInfo", "type") {
            Ok(t) => t,
            Err(e) => {
                return Err(e);
            },
        };
        let durable = match required_bool(v, "ExchangeInfo", "durable") {
            Ok(t) => t,
            Err(e) => {
                return Err(e);
            },
        };
        let auto_delete = match required_bool(v, "ExchangeInfo", "auto_delete") {
            Ok(t) => t,
            Err(e) => {
                return Err(e);
            },
        };
        let arguments = match required_map(v, "ExchangeInfo", "arguments") {
            Ok(t) => t,
            Err(e) => {
                return Err(e);
            },
        };
        Ok(ExchangeInfo { name, vhost, exchange_type, durable, auto_delete, arguments })
    }
}

/// A binding as the broker reports it.
#[derive(Debug, Clone)]
pub struct BindingInfo {
    pub vhost: String,
    pub source: String,
    pub destination: String,
    pub destination_type: BindingDestinationType,
    pub routing_key: String,
    pub arguments: XArguments,
    pub properties_key: String,
}

impl BindingInfo {
    /// Whether every field of `v` that a `BindingInfo` needs is there, in its shape.
    pub open spec fn parses(v: serde_json::Value) -> bool {
        &&& str_at(v, "vhost"@) is Some
        &&& str_at(v, "source"@) is Some
        &&& str_at(v, "destination"@) is Some
        &&& binding_destination_at(v, "destination_type"@) is Some
        &&& str_at(v, "routing_key"@) is Some
        &&& map_at(v, "arguments"@) is Some
        &&& str_at(v, "properties_key"@) is Some
    }

    /// Whether each field of `self` holds what `v` reports for it.
    pub open spec fn parsed_from(self, v: serde_json::Value) -> bool {
        &&& self.vhost@ == str_at(v, "vhost"@)->0
        &&& self.source@ == str_at(v, "source"@)->0
        &&& self.destination@ == str_at(v, "destination"@)->0
        &&& self.destination_type == binding_destination_at(v, "destination_type"@)->0
        &&& self.routing_key@ == str_at(v, "routing_key"@)->0
        &&& entries(self.arguments) == map_at(v, "arguments"@)->0
        &&& self.properties_key@ == str_at(v, "properties_key"@)->0
    }

    /// Whether `e` is the error of the first field of `v`, in field order, that
    /// a `BindingInfo` cannot take.
    pub open spec fn first_error(v: serde_json::Value, e: ResponseParseError) -> bool {
        if str_at(v, "vhost"@) is None {
            e.reports(v, "BindingInfo"@, "vhost"@)
        } else if str_at(v, "source"@) is None {
            e.reports(v, "BindingInfo"@, "source"@)
        } else if str_at(v, "destination"@) is None {
            e.reports(v, "BindingInfo"@, "destination"@)
        } else if binding_destination_at(v, "destination_type"@) is None {
            e.reports_enum(v, "BindingInfo"@, "destination_type"@, "BindingDestinationType"@)
        } else if str_at(v, "routing_key"@) is None {
            e.reports(v, "BindingInfo"@, "routing_key"@)
        } else if map_at(v, "arguments"@) is None {
            e.reports(v, "BindingInfo"@, "arguments"@)
        } else if str_at(v, "properties_key"@) is None {
            e.reports(v, "BindingInfo"@, "properties_key"@)
        } else {
            false
        }
    }

    /// Parses a `BindingInfo` from a response object.
    pub fn from_value(v: &serde_json::Value) -> (r: Result<BindingInfo, ResponseParseError>)
        ensures
            r is Ok <==> Self::parses(*v),
            r is Ok ==> r->Ok_0.parsed_from(*v),
            r is Err ==> Self::first_error(*v, r->Err_0),
            json_get(*v, "vhost"@) is None ==> r is Err && r->Err_0.is_missing("BindingInfo"@, "vhost"@),
    {
        let vhost = match required_str(v, "BindingInfo", "vhost") {
            Ok(t) => t,
            Err(e) => {
                return Err(e);
            },
        };
        let source = match required_str(v, "BindingInfo", "source") {
            Ok(t) => t,
            Err(e) => {
                return Err(e);
            },
        };
        let destination = match required_str(v, "BindingInfo", "destination") {
            Ok(t) => t,
            Err(e) => {
                return Err(e);
            },
        };
        let destination_type = match required_binding_destination(v, "BindingInfo", "destination_type") {
            Ok(t) => t,
            Err(e) => {
                return Err(e);
            },
        };
        let routing_key = match required_str(v, "BindingInfo", "routing_key") {
            Ok(t) => t,
            Err(e) => {
                return Err(e);
            },
        };
        let arguments = match required_map(v, "BindingInfo", "arguments") {
            Ok(t) => t,
            Err(e) => {
                return Err(e);
            },
        };
        let properties_key = match required_str(v, "BindingInfo", "properties_key") {
            Ok(t) => t,
            Err(e) => {
                return Err(e);
            },
        };
        Ok(BindingInfo { vhost, source, destination, destination_type, routing_key, arguments, properties_key })
    }
}

/// A cluster node as the broker reports it. Its process identifier may be
/// reported as a number or as a decimal string.
#[derive(Debug, Clone)]
pub struct ClusterNode {
    pub name: String,
    pub uptime: u32,
    pub run_queue: u32,
    pub processors: u32,
    pub os_pid: u32,
    pub fd_total: u32,
    pub total_erlang_processes: u32,
    pub sockets_total: u32,
    pub memory_high_watermark: u64,
    pub has_memory_alarm_in_effect: bool,
    pub free_disk_space_low_watermark: u64,
    pub has_free_disk_space_alarm_in_effect: bool,
    pub rates_mode: String,
}

impl ClusterNode {
    /// Whether every field of `v` that a `ClusterNode` needs is there, in its shape.
    pub open spec fn parses(v: serde_json::Value) -> bool {
        &&& str_at(v, "name"@) is Some
        &&& u32_at(v, "uptime"@) is Some
        &&& u32_at(v, "run_queue"@) is Some
        &&& u32_at(v, "processors"@) is Some
        &&& numeric_u32_at(v, "os_pid"@) is Some
        &&& u32_at(v, "fd_total"@) is Some
        &&& u32_at(v, "proc_total"@) is Some
        &&& u32_at(v, "sockets_total"@) is Some
        &&& u64_at(v, "mem_limit"@) is Some
        &&& bool_at(v, "mem_alarm"@) is Some
        &&& u64_at(v, "disk_free_limit"@) is Some
        &&& bool_at(v, "disk_free_alarm"@) is Some
        &&& str_at(v, "rates_mode"@) is Some
    }

    /// Whether each field of `self` holds what `v` reports for it.
    pub open spec fn parsed_from(self, v: serde_json::Value) -> bool {
        &&& self.name@ == str_at(v, "name"@)->0
        &&& self.uptime == u32_at(v, "uptime"@)->0
        &&& self.run_queue == u32_at(v, "run_queue"@)->0
        &&& self.processors == u32_at(v, "processors"@)->0
        &&& self.os_pid == numeric_u32_at(v, "os_pid"@)->0
        &&& self.fd_total == u32_at(v, "fd_total"@)->0
        &&& self.total_erlang_processes == u32_at(v, "proc_total"@)->0
        &&& self.sockets_total == u32_at(v, "sockets_total"@)->0
        &&& self.memory_high_watermark == u64_at(v, "mem_limit"@)->0
        &&& self.has_memory_alarm_in_effect == bool_at(v, "mem_alarm"@)->0
        &&& self.free_disk_space_low_watermark == u64_at(v, "disk_free_limit"@)->0
        &&& self.has_free_disk_space_alarm_in_effect == bool_at(v, "disk_free_alarm"@)->0
        &&& self.rates_mode@ == str_at(v, "rates_mode"@)->0
    }

    /// Whether `e` is the error of the first field of `v`, in field order, that
    /// a `ClusterNode` cannot take.
    pub open spec fn first_error(v: serde_json::Value, e: ResponseParseError) -> bool {
        if str_at(v, "name"@) is None {
            e.reports(v, "ClusterNode"@, "name"@)
        } else if u32_at(v, "uptime"@) is None {
            e.reports(v, "ClusterNode"@, "uptime"@)
        } else if u32_at(v, "run_queue"@) is None {
            e.reports(v, "ClusterNode"@, "run_queue"@)
        } else if u32_at(v, "processors"@) is None {
            e.reports(v, "ClusterNode"@, "processors"@)
        } else if numeric_u32_at(v, "os_pid"@) is None {
            e.reports(v, "ClusterNode"@, "os_pid"@)
        } else if u32_at(v, "fd_total"@) is None {
            e.reports(v, "ClusterNode"@, "fd_total"@)
        } else if u32_at(v, "proc_total"@) is None {
            e.reports(v, "ClusterNode"@, "proc_total"@)
        } else if u32_at(v, "sockets_total"@) is None {
            e.reports(v, "ClusterNode"@, "sockets_total"@)
        } else if u64_at(v, "mem_limit"@) is None {
            e.reports(v, "ClusterNode"@, "mem_limit"@)
        } else if bool_at(v, "mem_alarm"@) is None {
            e.reports(v, "ClusterNode"@, "mem_alarm"@)
        } else if u64_at(v, "disk_free_limit"@) is None {
            e.reports(v, "ClusterNode"@, "disk_free_limit"@)
        } else if bool_at(v, "disk_free_alarm"@) is None {
            e.reports(v, "ClusterNode"@, "disk_free_alarm"@)
        } else if str_at(v, "rates_mode"@) is None {
            e.reports(v, "ClusterNode"@, "rates_mode"@)
        } else {
            false
        }
    }

    /// Parses a `ClusterNode` from a response object.
    #[verifier::rlimit(50)]
    pub fn from_value(v: &serde_json::Value) -> (r: Result<ClusterNode, ResponseParseError>)
        ensures
            r is Ok <==> Self::parses(*v),
            r is Ok ==> r->Ok_0.parsed_from(*v),
            r is Err ==> Self::first_error(*v, r->Err_0),
            json_get(*v, "name"@) is None ==> r is Err && r->Err_0.is_missing("ClusterNode"@, "name"@),
            json_get(*v, "os_pid"@) matches Some(x) && crate::json::json_as_str(x) matches Some(t)
            && crate::json::decimal_u32(t) is None ==> r is Err,
    {
        let name = match required_str(v, "ClusterNode", "name") {
            Ok(t) => t,
            Err(e) => {
                return Err(e);
            },
        };
        let uptime = match required_u32(v, "ClusterNode", "uptime") {
            Ok(t) => t,
            Err(e) => {
                return Err(e);
            },
        };
        let run_queue = match required_u32(v, "ClusterNode", "run_queue") {
            Ok(t) => t,
            Err(e) => {
                return Err(e);
            },
        };
        let processors = match required_u32(v, "ClusterNode", "processors") {
            Ok(t) => t,
            Err(e) => {
                return Err(e);
            },
        };
        let os_pid = match required_numeric_u32(v, "ClusterNode", "os_pid") {
            Ok(t) => t,
            Err(e) => {
                return Err(e);
            },
        };
        let fd_total = match required_u32(v, "ClusterNode", "fd_total") {
            Ok(t) => t,
            Err(e) => {
                return Err(e);
            },
        };
        let total_erlang_processes = match required_u32(v, "ClusterNode", "proc_total") {
            Ok(t) => t,
            Err(e) => {
                return Err(e);
            },
        };
        let sockets_total = match required_u32(v, "ClusterNode", "sockets_total") {
            Ok(t) => t,
            Err(e) => {
                return Err(e);
            },
        };
        let memory_high_watermark = match required_u64(v, "ClusterNode", "mem_limit") {
            Ok(t) => t,
            Err(e) => {
                return Err(e);
            },
        };
        let has_memory_alarm_in_effect = match required_bool(v, "ClusterNode", "mem_alarm") {
            Ok(t) => t,
            Err(e) => {
                return Err(e);
            },
        };
        let free_disk_space_low_watermark = match required_u64(v, "ClusterNode", "disk_free_limit") {
            Ok(t) => t,
            Err(e) => {
                return Err(e);
            },
        };
        let has_free_disk_space_alarm_in_effect = match required_bool(v, "ClusterNode", "disk_free_alarm") {
            Ok(t) => t,
            Err(e) => {
                return Err(e);
            },
        };
        let rates_mode = match required_str(v, "ClusterNode", "rates_mode") {
            Ok(t) => t,
            Err(e) => {
                return Err(e);
            },
        };
        Ok(ClusterNode { name, uptime, run_queue, processors, os_pid, fd_total, total_erlang_processes, sockets_total, memory_high_watermark, has_memory_alarm_in_effect, free_disk_space_low_watermark, has_free_disk_space_alarm_in_effect, rates_mode })
    }
}

/// A runtime parameter as the broker reports it.
#[derive(Debug, Clone)]
pub struct RuntimeParameter {
    pub name: String,
    pub vhost: String,
    pub component: String,
    pub value: RuntimeParameterValue,
}

impl RuntimeParameter {
    /// Whether every field of `v` that a `RuntimeParameter` needs is there, in its shape.
    pub open spec fn parses(v: serde_json::Value) -> bool {
        &&& str_at(v, "name"@) is Some
        &&& str_at(v, "vhost"@) is Some
        &&& str_at(v, "component"@) is Some
        &&& map_at(v, "value"@) is Some
    }

    /// Whether each field of `self` holds what `v` reports for it.
    pub open spec fn parsed_from(self, v: serde_json::Value) -> bool {
        &&& self.name@ == str_at(v, "name"@)->0
        &&& self.vhost@ == str_at(v, "vhost"@)->0
        &&& self.component@ == str_at(v, "component"@)->0
        &&& entries(self.value) == map_at(v, "value"@)->0
    }

    /// Whether `e` is the error of the first field of `v`, in field order, that
    /// a `RuntimeParameter` cannot take.
    pub open spec fn first_error(v: serde_json::Value, e: ResponseParseError) -> bool {
        if str_at(v, "name"@) is None {
            e.reports(v, "RuntimeParameter"@, "name"@)
        } else if str_at(v, "vhost"@) is None {
            e.reports(v, "RuntimeParameter"@, "vhost"@)
        } else if str_at(v, "component"@) is None {
            e.reports(v, "RuntimeParameter"@, "component"@)
        } else if map_at(v, "value"@) is None {
            e.reports(v, "RuntimeParameter"@, "value"@)
        } else {
            false
        }
    }

    /// Parses a `RuntimeParameter` from a response object.
    pub fn from_value(v: &serde_json::Value) -> (r: Result<RuntimeParameter, ResponseParseError>)
        ensures
            r is Ok <==> Self::parses(*v),
            r is Ok ==> r->Ok_0.parsed_from(*v),
            r is Err ==> Self::first_error(*v, r->Err_0),
            json_get(*v, "name"@) is None ==> r is Err && r->Err_0.is_missing("RuntimeParameter"@, "name"@),
    {
        let name = match required_str(v, "RuntimeParameter", "name") {
            Ok(t) => t,
            Err(e) => {
                return Err(e);
            },
        };
        let vhost = match required_str(v, "RuntimeParameter", "vhost") {
            Ok(t) => t,
            Err(e) => {
                return Err(e);
            },
        };
        let component = match required_str(v, "RuntimeParameter", "component") {
            Ok(t) => t,
            Err(e) => {
                return Err(e);
            },
        };
        let value = match required_map(v, "RuntimeParameter", "value") {
            Ok(t) => t,
            Err(e) => {
                return Err(e);
            },
        };
        Ok(RuntimeParameter { name, vhost, component, value })
    }
}

/// The name of a cluster.
#[derive(Debug, Clone)]
pub struct ClusterIdentity {
    pub name: String,
}

impl ClusterIdentity {
    /// Whether every field of `v` that a `ClusterIdentity` needs is there, in its shape.
    pub open spec fn parses(v: serde_json::Value) -> bool {
        &&& str_at(v, "name"@) is Some
    }

    /// Whether each field of `self` holds what `v` reports for it.
    pub open spec fn parsed_from(self, v: serde_json::Value) -> bool {
        &&& self.name@ == str_at(v, "name"@)->0
    }

    /// Whether `e` is the error of the first field of `v`, in field order, that
    /// a `ClusterIdentity` cannot take.
    pub open spec fn first_error(v: serde_json::Value, e: ResponseParseError) -> bool {
        if str_at(v, "name"@) is None {
            e.reports(v, "ClusterIdentity"@, "name"@)
        } else {
            false
        }
    }

    /// Parses a `ClusterIdentity` from a response object.
    pub fn from_value(v: &serde_json::Value) -> (r: Result<ClusterIdentity, ResponseParseError>)
        ensures
            r is Ok <==> Self::parses(*v),
            r is Ok ==> r->Ok_0.parsed_from(*v),
            r is Err ==> Self::first_error(*v, r->Err_0),
            json_get(*v, "name"@) is None ==> r is Err && r->Err_0.is_missing("ClusterIdentity"@, "name"@),
    {
        let name = match required_str(v, "ClusterIdentity", "name") {
            Ok(t) => t,
            Err(e) => {
                return Err(e);
            },
        };
        Ok(ClusterIdentity { name })
    }
}

/// A policy as the broker reports it. An absent or `null` definition stays
/// apart from an empty one.
#[derive(Debug, Clone)]
pub struct Policy {
    pub name: String,
    pub vhost: String,
    pub pattern: String,
    pub apply_to: PolicyTarget,
    pub priority: i16,
    pub definition: PolicyDefinition,
}

impl Policy {
    /// Whether every field of `v` that a `Policy` needs is there, in its shape.
    pub open spec fn parses(v: serde_json::Value) -> bool {
        &&& str_at(v, "name"@) is Some
        &&& str_at(v, "vhost"@) is Some
        &&& str_at(v, "pattern"@) is Some
        &&& policy_target_at(v, "apply-to"@) is Some
        &&& i16_at(v, "priority"@) is Some
        &&& opt_map_at(v, "definition"@) is Some
    }

    /// Whether each field of `self` holds what `v` reports for it.
    pub open spec fn parsed_from(self, v: serde_json::Value) -> bool {
        &&& self.name@ == str_at(v, "name"@)->0
        &&& self.vhost@ == str_at(v, "vhost"@)->0
        &&& self.pattern@ == str_at(v, "pattern"@)->0
        &&& self.apply_to == policy_target_at(v, "apply-to"@)->0
        &&& self.priority == i16_at(v, "priority"@)->0
        &&& opt_entries(self.definition) == opt_map_at(v, "definition"@)->0
    }

    /// Whether `e` is the error of the first field of `v`, in field order, that
    /// a `Policy` cannot take.
    pub open spec fn first_error(v: serde_json::Value, e: ResponseParseError) -> bool {
        if str_at(v, "name"@) is None {
            e.reports(v, "Policy"@, "name"@)
        } else if str_at(v, "vhost"@) is None {
            e.reports(v, "Policy"@, "vhost"@)
        } else if str_at(v, "pattern"@) is None {
            e.reports(v, "Policy"@, "pattern"@)
        } else if policy_target_at(v, "apply-to"@) is None {
            e.reports_enum(v, "Policy"@, "apply-to"@, "PolicyTarget"@)
        } else if i16_at(v, "priority"@) is None {
            e.reports(v, "Policy"@, "priority"@)
        } else if opt_map_at(v, "definition"@) is None {
            e.reports(v, "Policy"@, "definition"@)
        } else {
            false
        }
    }

    /// Parses a `Policy` from a response object.
    pub fn from_value(v: &serde_json::Value) -> (r: Result<Policy, ResponseParseError>)
        ensures
            r is Ok <==> Self::parses(*v),
            r is Ok ==> r->Ok_0.parsed_from(*v),
            r is Err ==> Self::first_error(*v, r->Err_0),
            json_get(*v, "name"@) is None ==> r is Err && r->Err_0.is_missing("Policy"@, "name"@),
            r is Ok && crate::fields::is_absent(*v, "definition"@) ==> r->Ok_0.definition is None,
            r is Ok && !crate::fields::is_absent(*v, "definition"@) ==> r->Ok_0.definition is Some,
    {
        let name = match required_str(v, "Policy", "name") {
            Ok(t) => t,
            Err(e) => {
                return Err(e);
            },
        };
        let vhost = match required_str(v, "Policy", "vhost") {
            Ok(t) => t,
            Err(e) => {
                return Err(e);
            },
        };
        let pattern = match required_str(v, "Policy", "pattern") {
            Ok(t) => t,
            Err(e) => {
                return Err(e);
            },
        };
        let apply_to = match required_policy_target(v, "Policy", "apply-to") {
            Ok(t) => t,
            Err(e) => {
                return Err(e);
            },
        };
        let priority = match required_i16(v, "Policy", "priority") {
            Ok(t) => t,
            Err(e) => {
                return Err(e);
            },
        };
        let definition = match optional_map(v, "Policy", "definition") {
            Ok(t) => t,
            Err(e) => {
                return Err(e);
            },
        };
        Ok(Policy { name, vhost, pattern, apply_to, priority, definition })
    }
}

/// A cluster node whose process identifier is a string that spells no
/// number, and whose fields before it are well formed, is refused with that
/// field reported as malformed, its value as found.
pub proof fn lemma_non_numeric_process_identifier_is_malformed(
    v: serde_json::Value,
    e: ResponseParseError,
    text: Seq<char>,
)
    requires
        ClusterNode::first_error(v, e),
        str_at(v, "name"@) is Some,
        u32_at(v, "uptime"@) is Some,
        u32_at(v, "run_queue"@) is Some,
        u32_at(v, "processors"@) is Some,
        json_get(v, "os_pid"@) is Some,
        crate::json::json_as_str(json_get(v, "os_pid"@)->0) == Some(text),
        crate::json::decimal_u32(text) is None,
    ensures
        !ClusterNode::parses(v),
        e.is_malformed("ClusterNode"@, "os_pid"@, json_get(v, "os_pid"@)->0),
{
}

} // verus!
