use tm_misbehaviour::{
    ChannelIdAttribute, ConnectionIdAttribute, CounterpartyChannelIdAttribute,
    CounterpartyPortIdAttribute, PortIdAttribute, VersionAttribute,
};

#[test]
fn attributes_carry_their_keys() {
    let a = PortIdAttribute::new("transfer".to_string()).to_event_attribute();
    assert_eq!((a.key.as_str(), a.value.as_str()), ("port_id", "transfer"));
    let a = ChannelIdAttribute::new("channel-0".to_string()).to_event_attribute();
    assert_eq!((a.key.as_str(), a.value.as_str()), ("channel_id", "channel-0"));
    let a = CounterpartyPortIdAttribute::new("transfer".to_string()).to_event_attribute();
    assert_eq!(a.key, "counterparty_port_id");
    let c = CounterpartyChannelIdAttribute::new("channel-1".to_string());
    assert_eq!(c.as_ref(), "channel-1");
    let a = c.to_event_attribute();
    assert_eq!((a.key.as_str(), a.value.as_str()), ("counterparty_channel_id", "channel-1"));
    let a = ConnectionIdAttribute::new("connection-0".to_string()).to_event_attribute();
    assert_eq!(a.key, "connection_id");
    let a = VersionAttribute::new("ics20-1".to_string()).to_event_attribute();
    assert_eq!((a.key.as_str(), a.value.as_str()), ("version", "ics20-1"));
}
