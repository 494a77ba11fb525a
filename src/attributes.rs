use vstd::prelude::*;
use vstd::string::StringExecFns;

verus! {

pub const PORT_ID_ATTRIBUTE_KEY: &'static str = "port_id";
pub const CHANNEL_ID_ATTRIBUTE_KEY: &'static str = "channel_id";
pub const COUNTERPARTY_PORT_ID_ATTRIBUTE_KEY: &'static str = "counterparty_port_id";
pub const COUNTERPARTY_CHANNEL_ID_ATTRIBUTE_KEY: &'static str = "counterparty_channel_id";
pub const CONNECTION_ID_ATTRIBUTE_KEY: &'static str = "connection_id";
pub const VERSION_ATTRIBUTE_KEY: &'static str = "version";

/// A key and a value of an emitted event.
#[derive(Clone, Debug, PartialEq, Eq)]
pub struct EventAttribute {
    pub key: String,
    pub value: String,
}

/// The port of a channel-handshake event.
#[derive(Clone, Debug, PartialEq, Eq)]
pub struct PortIdAttribute {
    pub port_id: String,
}

impl PortIdAttribute {
    pub fn new(port_id: String) -> (r: PortIdAttribute)
        ensures
            r.port_id == port_id,
    {
        PortIdAttribute { port_id }
    }

    /// The event attribute keyed `port_id`.
    pub fn to_event_attribute(self) -> (r: EventAttribute)
        ensures
            r.key@ == PORT_ID_ATTRIBUTE_KEY@,
            r.value == self.port_id,
    {
        EventAttribute { key: <String as StringExecFns>::from_str(PORT_ID_ATTRIBUTE_KEY), value: self.port_id }
    }
}

/// The channel of a channel-handshake event.
#[derive(Clone, Debug, PartialEq, Eq)]
pub struct ChannelIdAttribute {
    pub channel_id: String,
}

impl ChannelIdAttribute {
    pub fn new(channel_id: String) -> (r: ChannelIdAttribute)
        ensures
            r.channel_id == channel_id,
    {
        ChannelIdAttribute { channel_id }
    }

    /// The event attribute keyed `channel_id`.
    pub fn to_event_attribute(self) -> (r: EventAttribute)
        ensures
            r.key@ == CHANNEL_ID_ATTRIBUTE_KEY@,
            r.value == self.channel_id,
    {
        EventAttribute { key: <String as StringExecFns>::from_str(CHANNEL_ID_ATTRIBUTE_KEY), value: self.channel_id }
    }
}

/// The counterparty's port in a channel-handshake event.
#[derive(Clone, Debug, PartialEq, Eq)]
pub struct CounterpartyPortIdAttribute {
    pub counterparty_port_id: String,
}

impl CounterpartyPortIdAttribute {
    pub fn new(counterparty_port_id: String) -> (r: CounterpartyPortIdAttribute)
        ensures
            r.counterparty_port_id == counterparty_port_id,
    {
        CounterpartyPortIdAttribute { counterparty_port_id }
    }

    /// The event attribute keyed `counterparty_port_id`.
    pub fn to_event_attribute(self) -> (r: EventAttribute)
        ensures
            r.key@ == COUNTERPARTY_PORT_ID_ATTRIBUTE_KEY@,
            r.value == self.counterparty_port_id,
    {
        EventAttribute { key: <String as StringExecFns>::from_str(COUNTERPARTY_PORT_ID_ATTRIBUTE_KEY), value: self.counterparty_port_id }
    }
}

/// The counterparty's channel in a channel-handshake event.
#[derive(Clone, Debug, PartialEq, Eq)]
pub struct CounterpartyChannelIdAttribute {
    pub counterparty_channel_id: String,
}

impl CounterpartyChannelIdAttribute {
    pub fn new(counterparty_channel_id: String) -> (r: CounterpartyChannelIdAttribute)
        ensures
            r.counterparty_channel_id == counterparty_channel_id,
    {
        CounterpartyChannelIdAttribute { counterparty_channel_id }
    }

    /// The event attribute keyed `counterparty_channel_id`.
    pub fn to_event_attribute(self) -> (r: EventAttribute)
        ensures
            r.key@ == COUNTERPARTY_CHANNEL_ID_ATTRIBUTE_KEY@,
            r.value == self.counterparty_channel_id,
    {
        EventAttribute { key: <String as StringExecFns>::from_str(COUNTERPARTY_CHANNEL_ID_ATTRIBUTE_KEY), value: self.counterparty_channel_id }
    }

    pub fn as_ref(&self) -> (r: &String)
        ensures
            *r == self.counterparty_channel_id,
    {
        &self.counterparty_channel_id
    }
}

/// The connection of a channel-handshake event.
#[derive(Clone, Debug, PartialEq, Eq)]
pub struct ConnectionIdAttribute {
    pub connection_id: String,
}

impl ConnectionIdAttribute {
    pub fn new(connection_id: String) -> (r: ConnectionIdAttribute)
        ensures
            r.connection_id == connection_id,
    {
        ConnectionIdAttribute { connection_id }
    }

    /// The event attribute keyed `connection_id`.
    pub fn to_event_attribute(self) -> (r: EventAttribute)
        ensures
            r.key@ == CONNECTION_ID_ATTRIBUTE_KEY@,
            r.value == self.connection_id,
    {
        EventAttribute { key: <String as StringExecFns>::from_str(CONNECTION_ID_ATTRIBUTE_KEY), value: self.connection_id }
    }
}

/// The channel version in a channel-handshake event.
#[derive(Clone, Debug, PartialEq, Eq)]
pub struct VersionAttribute {
    pub version: String,
}

impl VersionAttribute {
    pub fn new(version: String) -> (r: VersionAttribute)
        ensures
            r.version == version,
    {
        VersionAttribute { version }
    }

    /// The event attribute keyed `version`.
    pub fn to_event_attribute(self) -> (r: EventAttribute)
        ensures
            r.key@ == VERSION_ATTRIBUTE_KEY@,
            r.value == self.version,
    {
        EventAttribute { key: <String as StringExecFns>::from_str(VERSION_ATTRIBUTE_KEY), value: self.version }
    }
}

} // verus!
