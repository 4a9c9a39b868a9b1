//! The header carried by a broker registration request: identity and address
//! fields, two optional tuning fields, and body metadata.
use vstd::prelude::*;
use crate::command_custom_header::CommandCustomHeader;
use crate::command_custom_header::FromMap;
use crate::command_custom_header::HeaderError;
use crate::command_custom_header::bool_field_or;
use crate::command_custom_header::i64_field_or_zero;
use crate::command_custom_header::opt_bool_field;
use crate::command_custom_header::opt_i64_field;
use crate::command_custom_header::string_field_or_empty;
use crate::command_custom_header::u32_field_or_zero;
use crate::field_map::FieldMap;
use crate::text::bool_text;
use crate::text::dec_digits;
use crate::text::dec_int;
use crate::text::format_bool;
use crate::text::format_i64;
use crate::text::format_u32;
use crate::text::parse_bool;
use crate::text::parse_i64;
use crate::text::parse_u32;

verus! {

/// Header of a broker registration request.
pub struct RegisterBrokerRequestHeader {
    /// The name of the broker.
    pub broker_name: String,
    /// The address of the broker.
    pub broker_addr: String,
    /// The name of the cluster the broker belongs to.
    pub cluster_name: String,
    /// The address of the broker's highly-available server.
    pub ha_server_addr: String,
    /// The broker's unique identifier.
    pub broker_id: i64,
    /// The heartbeat timeout in milliseconds, when set.
    pub heartbeat_timeout_millis: Option<i64>,
    /// Whether acting as the master is enabled, when set.
    pub enable_acting_master: Option<bool>,
    /// Whether the request body is compressed.
    pub compressed: bool,
    /// The checksum of the request body.
    pub body_crc32: u32,
}

/// The mathematical model of a broker registration header.
pub ghost struct RegisterBrokerRequestHeaderView {
    pub broker_name: Seq<char>,
    pub broker_addr: Seq<char>,
    pub cluster_name: Seq<char>,
    pub ha_server_addr: Seq<char>,
    pub broker_id: i64,
    pub heartbeat_timeout_millis: Option<i64>,
    pub enable_acting_master: Option<bool>,
    pub compressed: bool,
    pub body_crc32: u32,
}

impl View for RegisterBrokerRequestHeader {
    type V = RegisterBrokerRequestHeaderView;

    open spec fn view(&self) -> RegisterBrokerRequestHeaderView {
        RegisterBrokerRequestHeaderView {
            broker_name: self.broker_name@,
            broker_addr: self.broker_addr@,
            cluster_name: self.cluster_name@,
            ha_server_addr: self.ha_server_addr@,
            broker_id: self.broker_id,
            heartbeat_timeout_millis: self.heartbeat_timeout_millis,
            enable_acting_master: self.enable_acting_master,
            compressed: self.compressed,
            body_crc32: self.body_crc32,
        }
    }
}

impl RegisterBrokerRequestHeader {
    /// Creates a registration header from its field values.
    pub fn new(
        broker_name: String,
        broker_addr: String,
        cluster_name: String,
        ha_server_addr: String,
        broker_id: i64,
        heartbeat_timeout_millis: Option<i64>,
        enable_acting_master: Option<bool>,
        compressed: bool,
        body_crc32: u32,
    ) -> (r: Self)
        ensures
            (r@ == (RegisterBrokerRequestHeaderView {
                broker_name: broker_name@,
                broker_addr: broker_addr@,
                cluster_name: cluster_name@,
                ha_server_addr: ha_server_addr@,
                broker_id,
                heartbeat_timeout_millis,
                enable_acting_master,
                compressed,
                body_crc32,
            })),
    {
        RegisterBrokerRequestHeader {
            broker_name,
            broker_addr,
            cluster_name,
            ha_server_addr,
            broker_id,
            heartbeat_timeout_millis,
            enable_acting_master,
            compressed,
            body_crc32,
        }
    }
}

/// The wire form: every required field always, each optional field only when
/// set.
pub open spec fn register_broker_wire_map(v: RegisterBrokerRequestHeaderView) -> Map<
    Seq<char>,
    Seq<char>,
> {
    let m = Map::<Seq<char>, Seq<char>>::empty().insert("brokerName"@, v.broker_name).insert(
        "brokerAddr"@,
        v.broker_addr,
    ).insert("clusterName"@, v.cluster_name).insert("haServerAddr"@, v.ha_server_addr).insert(
        "brokerId"@,
        dec_int(v.broker_id as int),
    );
    let m = if v.heartbeat_timeout_millis is Some {
        m.insert("heartbeatTimeoutMillis"@, dec_int(v.heartbeat_timeout_millis->Some_0 as int))
    } else {
        m
    };
    let m = if v.enable_acting_master is Some {
        m.insert("enableActingMaster"@, bool_text(v.enable_acting_master->Some_0))
    } else {
        m
    };
    m.insert("compressed"@, bool_text(v.compressed)).insert(
        "bodyCrc32"@,
        dec_digits(v.body_crc32 as nat),
    )
}

/// What a wire map decodes to: absent or unparsable required fields take
/// their zero values, absent or unparsable optional fields stay unset.
pub open spec fn register_broker_decoded(m: Map<Seq<char>, Seq<char>>) -> RegisterBrokerRequestHeaderView {
    RegisterBrokerRequestHeaderView {
        broker_name: string_field_or_empty(m, "brokerName"@),
        broker_addr: string_field_or_empty(m, "brokerAddr"@),
        cluster_name: string_field_or_empty(m, "clusterName"@),
        ha_server_addr: string_field_or_empty(m, "haServerAddr"@),
        broker_id: i64_field_or_zero(m, "brokerId"@),
        heartbeat_timeout_millis: opt_i64_field(m, "heartbeatTimeoutMillis"@),
        enable_acting_master: opt_bool_field(m, "enableActingMaster"@),
        compressed: bool_field_or(m, "compressed"@, false),
        body_crc32: u32_field_or_zero(m, "bodyCrc32"@),
    }
}

/// The registration header's nine wire keys are pairwise distinct.
pub proof fn lemma_register_broker_keys_distinct()
    ensures
        "brokerName"@ != "brokerAddr"@,
        "brokerName"@ != "clusterName"@,
        "brokerName"@ != "haServerAddr"@,
        "brokerName"@ != "brokerId"@,
        "brokerName"@ != "heartbeatTimeoutMillis"@,
        "brokerName"@ != "enableActingMaster"@,
        "brokerName"@ != "compressed"@,
        "brokerName"@ != "bodyCrc32"@,
        "brokerAddr"@ != "clusterName"@,
        "brokerAddr"@ != "haServerAddr"@,
        "brokerAddr"@ != "brokerId"@,
        "brokerAddr"@ != "heartbeatTimeoutMillis"@,
        "brokerAddr"@ != "enableActingMaster"@,
        "brokerAddr"@ != "compressed"@,
        "brokerAddr"@ != "bodyCrc32"@,
        "clusterName"@ != "haServerAddr"@,
        "clusterName"@ != "brokerId"@,
        "clusterName"@ != "heartbeatTimeoutMillis"@,
        "clusterName"@ != "enableActingMaster"@,
        "clusterName"@ != "compressed"@,
        "clusterName"@ != "bodyCrc32"@,
        "haServerAddr"@ != "brokerId"@,
        "haServerAddr"@ != "heartbeatTimeoutMillis"@,
        "haServerAddr"@ != "enableActingMaster"@,
        "haServerAddr"@ != "compressed"@,
        "haServerAddr"@ != "bodyCrc32"@,
        "brokerId"@ != "heartbeatTimeoutMillis"@,
        "brokerId"@ != "enableActingMaster"@,
        "brokerId"@ != "compressed"@,
        "brokerId"@ != "bodyCrc32"@,
        "heartbeatTimeoutMillis"@ != "enableActingMaster"@,
        "heartbeatTimeoutMillis"@ != "compressed"@,
        "heartbeatTimeoutMillis"@ != "bodyCrc32"@,
        "enableActingMaster"@ != "compressed"@,
        "enableActingMaster"@ != "bodyCrc32"@,
        "compressed"@ != "bodyCrc32"@,
{
    reveal_strlit("brokerName");
    reveal_strlit("brokerAddr");
    reveal_strlit("clusterName");
    reveal_strlit("haServerAddr");
    reveal_strlit("brokerId");
    reveal_strlit("heartbeatTimeoutMillis");
    reveal_strlit("enableActingMaster");
    reveal_strlit("compressed");
    reveal_strlit("bodyCrc32");
    assert("brokerName"@.len() == 10);
    assert("brokerAddr"@.len() == 10);
    assert("clusterName"@.len() == 11);
    assert("haServerAddr"@.len() == 12);
    assert("brokerId"@.len() == 8);
    assert("heartbeatTimeoutMillis"@.len() == 22);
    assert("enableActingMaster"@.len() == 18);
    assert("compressed"@.len() == 10);
    assert("bodyCrc32"@.len() == 9);
    assert("brokerName"@[6] == 'N');
    assert("brokerAddr"@[6] == 'A');
    assert("brokerName"@[0] == 'b');
    assert("brokerAddr"@[0] == 'b');
    assert("compressed"@[0] == 'c');
}

/// Law: a registration header decodes from its own wire map back to itself,
/// for every combination of field values.
pub proof fn lemma_register_broker_round_trip(v: RegisterBrokerRequestHeaderView)
    ensures
        register_broker_decoded(register_broker_wire_map(v)) == v,
{
    lemma_register_broker_keys_distinct();
    crate::text::lemma_i64_text_round_trip(v.broker_id);
    crate::text::lemma_bool_text_round_trip(v.compressed);
    crate::text::lemma_u32_text_round_trip(v.body_crc32);
    if v.heartbeat_timeout_millis is Some {
        crate::text::lemma_i64_text_round_trip(v.heartbeat_timeout_millis->Some_0);
    }
    if v.enable_acting_master is Some {
        crate::text::lemma_bool_text_round_trip(v.enable_acting_master->Some_0);
    }
}

/// Law: every required field's key is present in the wire map, whatever the
/// field values.
pub proof fn lemma_register_required_keys_always_present(v: RegisterBrokerRequestHeaderView)
    ensures
        register_broker_wire_map(v).contains_key("brokerName"@),
        register_broker_wire_map(v).contains_key("brokerAddr"@),
        register_broker_wire_map(v).contains_key("clusterName"@),
        register_broker_wire_map(v).contains_key("haServerAddr"@),
        register_broker_wire_map(v).contains_key("brokerId"@),
        register_broker_wire_map(v).contains_key("compressed"@),
        register_broker_wire_map(v).contains_key("bodyCrc32"@),
{
}

/// Law: decoding a map that lacks an integer key yields zero for that field,
/// not a decode failure.
pub proof fn lemma_register_missing_integers_decode_to_zero(m: Map<Seq<char>, Seq<char>>)
    ensures
        !m.contains_key("brokerId"@) ==> register_broker_decoded(m).broker_id == 0,
        !m.contains_key("bodyCrc32"@) ==> register_broker_decoded(m).body_crc32 == 0,
{
}

/// Law: an unset optional field leaves its key out of the wire map entirely,
/// and a set one puts it in.
pub proof fn lemma_register_optional_keys_present_iff(v: RegisterBrokerRequestHeaderView)
    ensures
        register_broker_wire_map(v).contains_key("heartbeatTimeoutMillis"@)
            <==> v.heartbeat_timeout_millis is Some,
        register_broker_wire_map(v).contains_key("enableActingMaster"@)
            <==> v.enable_acting_master is Some,
{
    lemma_register_broker_keys_distinct();
}

impl CommandCustomHeader for RegisterBrokerRequestHeader {
    open spec fn wire_map(&self) -> Map<Seq<char>, Seq<char>> {
        register_broker_wire_map(self@)
    }

    open spec fn fields_valid(&self) -> bool {
        true
    }

    fn to_map(&self) -> (r: Option<FieldMap>) {
        let mut map = FieldMap::new();
        map.insert("brokerName", self.broker_name.clone());
        map.insert("brokerAddr", self.broker_addr.clone());
        map.insert("clusterName", self.cluster_name.clone());
        map.insert("haServerAddr", self.ha_server_addr.clone());
        map.insert("brokerId", format_i64(self.broker_id));
        match self.heartbeat_timeout_millis {
            Some(t) => map.insert("heartbeatTimeoutMillis", format_i64(t)),
            None => (),
        }
        match self.enable_acting_master {
            Some(e) => map.insert("enableActingMaster", format_bool(e)),
            None => (),
        }
        map.insert("compressed", format_bool(self.compressed));
        map.insert("bodyCrc32", format_u32(self.body_crc32));
        Some(map)
    }

    fn check_fields(&self) -> (r: Result<(), HeaderError>) {
        Ok(())
    }
}

impl FromMap for RegisterBrokerRequestHeader {
    open spec fn decoded(m: Map<Seq<char>, Seq<char>>) -> RegisterBrokerRequestHeaderView {
        register_broker_decoded(m)
    }

    fn from(map: &FieldMap) -> (r: Option<RegisterBrokerRequestHeader>) {
        let broker_name: String = match map.get("brokerName") {
            Some(s) => s,
            None => String::new(),
        };
        let broker_addr: String = match map.get("brokerAddr") {
            Some(s) => s,
            None => String::new(),
        };
        let cluster_name: String = match map.get("clusterName") {
            Some(s) => s,
            None => String::new(),
        };
        let ha_server_addr: String = match map.get("haServerAddr") {
            Some(s) => s,
            None => String::new(),
        };
        let broker_id: i64 = match map.get("brokerId") {
            Some(s) => match parse_i64(s.as_str()) {
                Some(v) => v,
                None => 0,
            },
            None => 0,
        };
        let heartbeat_timeout_millis: Option<i64> = match map.get("heartbeatTimeoutMillis") {
            Some(s) => parse_i64(s.as_str()),
            None => None,
        };
        let enable_acting_master: Option<bool> = match map.get("enableActingMaster") {
            Some(s) => parse_bool(s.as_str()),
            None => None,
        };
        let compressed: bool = match map.get("compressed") {
            Some(s) => match parse_bool(s.as_str()) {
                Some(b) => b,
                None => false,
            },
            None => false,
        };
        let body_crc32: u32 = match map.get("bodyCrc32") {
            Some(s) => match parse_u32(s.as_str()) {
                Some(v) => v,
                None => 0,
            },
            None => 0,
        };
        Some(RegisterBrokerRequestHeader {
            broker_name,
            broker_addr,
            cluster_name,
            ha_server_addr,
            broker_id,
            heartbeat_timeout_millis,
            enable_acting_master,
            compressed,
            body_crc32,
        })
    }
}

} // verus!
