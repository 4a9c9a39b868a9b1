use rocketmq_remoting::broker_request_header::RegisterBrokerRequestHeader;
use rocketmq_remoting::command_custom_header::CommandCustomHeader;
use rocketmq_remoting::command_custom_header::FromMap;
use rocketmq_remoting::field_map::FieldMap;
use rocketmq_remoting::get_max_offset_request_header::GetMaxOffsetRequestHeader;
use rocketmq_remoting::rpc_request_header::RpcRequestHeader;
use rocketmq_remoting::topic_request_header::TopicRequestHeader;

#[test]
fn decode_scenario_populates_fields_and_routing() {
    let mut map = FieldMap::new();
    map.insert("topic", "orderTopic".to_string());
    map.insert("queueId", "3".to_string());
    map.insert("committed", "false".to_string());
    let h = <GetMaxOffsetRequestHeader as FromMap>::from(&map).unwrap();
    assert_eq!(h.topic(), "orderTopic");
    assert_eq!(h.queue_id, 3);
    assert!(!h.committed);
    let sub = h.topic_request_header.as_ref().unwrap();
    assert!(sub.lo.is_none());
    let rpc = sub.rpc_request_header.as_ref().unwrap();
    assert!(rpc.broker_name.is_none());
    assert!(rpc.namespace.is_none());
    assert!(rpc.namespaced.is_none());
    assert!(rpc.oneway.is_none());
}

#[test]
fn set_broker_name_is_readable_and_reaches_the_map() {
    let map = FieldMap::new();
    let mut h = <GetMaxOffsetRequestHeader as FromMap>::from(&map).unwrap();
    h.set_broker_name("broker-a".to_string());
    assert_eq!(h.broker_name(), Some("broker-a"));
    let out = h.to_map().unwrap();
    assert!(out.contains_key("brokerName"));
    assert_eq!(out.get("brokerName"), Some("broker-a".to_string()));
}

#[test]
fn missing_queue_id_decodes_to_zero() {
    let mut map = FieldMap::new();
    map.insert("topic", "t".to_string());
    let h = <GetMaxOffsetRequestHeader as FromMap>::from(&map).unwrap();
    assert_eq!(h.queue_id, 0);
}

#[test]
fn unparsable_committed_falls_back_to_true() {
    let mut map = FieldMap::new();
    map.insert("committed", "maybe".to_string());
    let h = <GetMaxOffsetRequestHeader as FromMap>::from(&map).unwrap();
    assert!(h.committed);
}

#[test]
fn unparsable_queue_id_decodes_to_zero() {
    let mut map = FieldMap::new();
    map.insert("queueId", "three".to_string());
    let h = <GetMaxOffsetRequestHeader as FromMap>::from(&map).unwrap();
    assert_eq!(h.queue_id, 0);
}

#[test]
fn default_header_has_declared_defaults() {
    let h = GetMaxOffsetRequestHeader::default();
    assert_eq!(h.topic(), "");
    assert_eq!(h.queue_id, 0);
    assert!(h.committed);
    assert!(h.topic_request_header.is_none());
}

#[test]
fn get_max_offset_round_trip_keeps_every_field() {
    let map = FieldMap::new();
    let mut h = <GetMaxOffsetRequestHeader as FromMap>::from(&map).unwrap();
    h.set_topic("t1".to_string());
    h.set_queue_id(Some(7));
    h.committed = false;
    h.set_lo(Some(true));
    h.set_broker_name("b1".to_string());
    h.set_namespace("ns".to_string());
    h.set_namespaced(true);
    h.set_oneway(false);
    let wire = h.to_map().unwrap();
    let back = <GetMaxOffsetRequestHeader as FromMap>::from(&wire).unwrap();
    assert_eq!(back.topic(), "t1");
    assert_eq!(back.queue_id(), Some(7));
    assert!(!back.committed);
    assert_eq!(back.lo(), Some(true));
    assert_eq!(back.broker_name(), Some("b1"));
    assert_eq!(back.namespace(), Some("ns"));
    assert_eq!(back.namespaced(), Some(true));
    assert_eq!(back.oneway(), Some(false));
}

#[test]
fn accessors_read_and_write_the_parent_fields() {
    let map = FieldMap::new();
    let mut h = <GetMaxOffsetRequestHeader as FromMap>::from(&map).unwrap();
    h.set_topic("a".to_string());
    assert_eq!(h.topic(), "a");
    h.set_queue_id(None);
    assert_eq!(h.queue_id(), Some(0));
    h.set_lo(None);
    assert_eq!(h.lo(), None);
    assert_eq!(h.namespace(), None);
    assert_eq!(h.namespaced(), None);
    assert_eq!(h.oneway(), None);
    assert!(h.check_fields().is_ok());
}

#[test]
fn unset_optional_routing_fields_leave_keys_out() {
    let map = FieldMap::new();
    let h = <GetMaxOffsetRequestHeader as FromMap>::from(&map).unwrap();
    let out = h.to_map().unwrap();
    assert!(out.contains_key("topic"));
    assert!(out.contains_key("queueId"));
    assert!(out.contains_key("committed"));
    assert!(!out.contains_key("lo"));
    assert!(!out.contains_key("brokerName"));
    assert!(!out.contains_key("namespace"));
    assert!(!out.contains_key("namespaced"));
    assert!(!out.contains_key("oneway"));
}

fn sample_register_header() -> RegisterBrokerRequestHeader {
    RegisterBrokerRequestHeader::new(
        "broker-a".to_string(),
        "127.0.0.1:10911".to_string(),
        "DefaultCluster".to_string(),
        "127.0.0.1:10912".to_string(),
        -42,
        Some(30000),
        Some(true),
        true,
        4294967295,
    )
}

#[test]
fn register_to_map_serializes_every_set_field() {
    let h = sample_register_header();
    let m = h.to_map().unwrap();
    assert_eq!(m.get("brokerName"), Some("broker-a".to_string()));
    assert_eq!(m.get("brokerAddr"), Some("127.0.0.1:10911".to_string()));
    assert_eq!(m.get("clusterName"), Some("DefaultCluster".to_string()));
    assert_eq!(m.get("haServerAddr"), Some("127.0.0.1:10912".to_string()));
    assert_eq!(m.get("brokerId"), Some("-42".to_string()));
    assert_eq!(m.get("heartbeatTimeoutMillis"), Some("30000".to_string()));
    assert_eq!(m.get("enableActingMaster"), Some("true".to_string()));
    assert_eq!(m.get("compressed"), Some("true".to_string()));
    assert_eq!(m.get("bodyCrc32"), Some("4294967295".to_string()));
}

#[test]
fn register_round_trip_keeps_every_field() {
    let h = sample_register_header();
    let wire = h.to_map().unwrap();
    let back = <RegisterBrokerRequestHeader as FromMap>::from(&wire).unwrap();
    assert_eq!(back.broker_name, "broker-a");
    assert_eq!(back.broker_addr, "127.0.0.1:10911");
    assert_eq!(back.cluster_name, "DefaultCluster");
    assert_eq!(back.ha_server_addr, "127.0.0.1:10912");
    assert_eq!(back.broker_id, -42);
    assert_eq!(back.heartbeat_timeout_millis, Some(30000));
    assert_eq!(back.enable_acting_master, Some(true));
    assert!(back.compressed);
    assert_eq!(back.body_crc32, 4294967295);
    assert!(back.check_fields().is_ok());
}

#[test]
fn register_unset_optional_fields_leave_keys_out() {
    let h = RegisterBrokerRequestHeader::new(
        "b".to_string(),
        "a".to_string(),
        "c".to_string(),
        "h".to_string(),
        0,
        None,
        None,
        false,
        0,
    );
    let m = h.to_map().unwrap();
    assert!(!m.contains_key("heartbeatTimeoutMillis"));
    assert!(!m.contains_key("enableActingMaster"));
    assert_eq!(m.get("compressed"), Some("false".to_string()));
}

#[test]
fn register_decode_of_empty_map_yields_zero_values() {
    let map = FieldMap::new();
    let h = <RegisterBrokerRequestHeader as FromMap>::from(&map).unwrap();
    assert_eq!(h.broker_name, "");
    assert_eq!(h.broker_addr, "");
    assert_eq!(h.cluster_name, "");
    assert_eq!(h.ha_server_addr, "");
    assert_eq!(h.broker_id, 0);
    assert_eq!(h.heartbeat_timeout_millis, None);
    assert_eq!(h.enable_acting_master, None);
    assert!(!h.compressed);
    assert_eq!(h.body_crc32, 0);
}

#[test]
fn register_unparsable_fields_take_defaults() {
    let mut map = FieldMap::new();
    map.insert("brokerId", "not-a-number".to_string());
    map.insert("bodyCrc32", "-1".to_string());
    map.insert("compressed", "TRUE".to_string());
    map.insert("heartbeatTimeoutMillis", "soon".to_string());
    map.insert("enableActingMaster", "1".to_string());
    let h = <RegisterBrokerRequestHeader as FromMap>::from(&map).unwrap();
    assert_eq!(h.broker_id, 0);
    assert_eq!(h.body_crc32, 0);
    assert!(!h.compressed);
    assert_eq!(h.heartbeat_timeout_millis, None);
    assert_eq!(h.enable_acting_master, None);
}

#[test]
fn rpc_header_round_trip_keeps_set_fields_and_omits_unset_keys() {
    let h = RpcRequestHeader {
        broker_name: Some("b".to_string()),
        namespace: None,
        namespaced: Some(false),
        oneway: None,
    };
    let m = h.to_map().unwrap();
    assert_eq!(m.get("brokerName"), Some("b".to_string()));
    assert_eq!(m.get("namespaced"), Some("false".to_string()));
    assert!(!m.contains_key("namespace"));
    assert!(!m.contains_key("oneway"));
    let back = <RpcRequestHeader as FromMap>::from(&m).unwrap();
    assert_eq!(back.broker_name, Some("b".to_string()));
    assert_eq!(back.namespace, None);
    assert_eq!(back.namespaced, Some(false));
    assert_eq!(back.oneway, None);
    assert!(back.check_fields().is_ok());
}

#[test]
fn topic_request_header_decode_always_populates_the_rpc_group() {
    let mut m = FieldMap::new();
    m.insert("lo", "true".to_string());
    let h = <TopicRequestHeader as FromMap>::from(&m).unwrap();
    assert_eq!(h.lo, Some(true));
    assert!(h.rpc_request_header.is_some());
    let out = h.to_map().unwrap();
    assert_eq!(out.get("lo"), Some("true".to_string()));
    assert!(!out.contains_key("brokerName"));
}
