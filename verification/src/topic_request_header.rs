//! The composable routing sub-header embedded by topic-addressed header
//! types: a low-latency flag plus the nested RPC-identity field group. Its
//! wire keys are merged, unprefixed, into the owning header's map.
use vstd::prelude::*;
use crate::command_custom_header::CommandCustomHeader;
use crate::command_custom_header::FromMap;
use crate::command_custom_header::HeaderError;
use crate::command_custom_header::opt_bool_field;
use crate::field_map::FieldMap;
use crate::rpc_request_header::RpcRequestHeader;
use crate::rpc_request_header::RpcRequestHeaderView;
use crate::rpc_request_header::lemma_rpc_keys_distinct;
use crate::rpc_request_header::lemma_rpc_round_trip;
use crate::rpc_request_header::lemma_rpc_wire_map_dom;
use crate::rpc_request_header::rpc_decoded;
use crate::rpc_request_header::rpc_wire_map;
use crate::text::bool_text;
use crate::text::format_bool;
use crate::text::parse_bool;

verus! {

/// Routing metadata embedded by topic-addressed headers. Decoding from any
/// map always populates the nested RPC-identity group, which is what lets
/// owning headers treat it as present after a decode.
pub struct TopicRequestHeader {
    pub lo: Option<bool>,
    pub rpc_request_header: Option<RpcRequestHeader>,
}

/// The mathematical model of a routing sub-header.
pub ghost struct TopicRequestHeaderView {
    pub lo: Option<bool>,
    pub rpc_request_header: Option<RpcRequestHeaderView>,
}

impl View for TopicRequestHeader {
    type V = TopicRequestHeaderView;

    open spec fn view(&self) -> TopicRequestHeaderView {
        TopicRequestHeaderView {
            lo: self.lo,
            rpc_request_header: match self.rpc_request_header {
                Some(r) => Some(r@),
                None => None,
            },
        }
    }
}

/// The wire form of a routing sub-header: its own low-latency key when set,
/// merged with the nested group's keys, unprefixed.
pub open spec fn topic_request_wire_map(v: TopicRequestHeaderView) -> Map<Seq<char>, Seq<char>> {
    let m0 = Map::<Seq<char>, Seq<char>>::empty();
    let m1 = if v.lo is Some {
        m0.insert("lo"@, bool_text(v.lo->Some_0))
    } else {
        m0
    };
    match v.rpc_request_header {
        Some(r) => m1.union_prefer_right(rpc_wire_map(r)),
        None => m1,
    }
}

/// What a routing sub-header decodes to: the nested RPC-identity group is
/// always present afterwards.
pub open spec fn topic_request_decoded(m: Map<Seq<char>, Seq<char>>) -> TopicRequestHeaderView {
    TopicRequestHeaderView {
        lo: opt_bool_field(m, "lo"@),
        rpc_request_header: Some(rpc_decoded(m)),
    }
}

/// The low-latency wire key is distinct from every RPC-identity key.
pub proof fn lemma_lo_key_distinct()
    ensures
        "lo"@ != "brokerName"@,
        "lo"@ != "namespace"@,
        "lo"@ != "namespaced"@,
        "lo"@ != "oneway"@,
{
    reveal_strlit("lo");
    reveal_strlit("brokerName");
    reveal_strlit("namespace");
    reveal_strlit("namespaced");
    reveal_strlit("oneway");
    assert("lo"@.len() == 2);
    assert("brokerName"@.len() == 10);
    assert("namespace"@.len() == 9);
    assert("namespaced"@.len() == 10);
    assert("oneway"@.len() == 6);
}

/// The wire map of a routing sub-header holds no key but the low-latency key
/// and the four RPC-identity keys.
pub proof fn lemma_topic_request_wire_map_dom(v: TopicRequestHeaderView, k: Seq<char>)
    requires
        k != "lo"@,
        k != "brokerName"@,
        k != "namespace"@,
        k != "namespaced"@,
        k != "oneway"@,
    ensures
        !topic_request_wire_map(v).contains_key(k),
{
    if v.rpc_request_header is Some {
        lemma_rpc_wire_map_dom(v.rpc_request_header->Some_0, k);
    }
}

/// Law: a routing sub-header whose nested group is present decodes from its
/// own wire map back to itself, for every combination of set fields.
pub proof fn lemma_topic_request_round_trip(v: TopicRequestHeaderView)
    requires
        v.rpc_request_header is Some,
    ensures
        topic_request_decoded(topic_request_wire_map(v)) == v,
{
    lemma_lo_key_distinct();
    lemma_rpc_keys_distinct();
    let r = v.rpc_request_header->Some_0;
    lemma_rpc_round_trip(r);
    lemma_rpc_wire_map_dom(r, "lo"@);
    if v.lo is Some {
        crate::text::lemma_bool_text_round_trip(v.lo->Some_0);
    }
}

impl CommandCustomHeader for TopicRequestHeader {
    open spec fn wire_map(&self) -> Map<Seq<char>, Seq<char>> {
        topic_request_wire_map(self@)
    }

    open spec fn fields_valid(&self) -> bool {
        true
    }

    fn to_map(&self) -> (r: Option<FieldMap>) {
        let mut map = FieldMap::new();
        match self.lo {
            Some(b) => map.insert("lo", format_bool(b)),
            None => (),
        }
        match &self.rpc_request_header {
            Some(rpc) => {
                match rpc.to_map() {
                    Some(sub) => map.merge(&sub),
                    None => (),
                }
            },
            None => (),
        }
        Some(map)
    }

    fn check_fields(&self) -> (r: Result<(), HeaderError>) {
        Ok(())
    }
}

impl FromMap for TopicRequestHeader {
    open spec fn decoded(m: Map<Seq<char>, Seq<char>>) -> TopicRequestHeaderView {
        topic_request_decoded(m)
    }

    fn from(map: &FieldMap) -> (r: Option<TopicRequestHeader>) {
        let lo: Option<bool> = match map.get("lo") {
            Some(s) => parse_bool(s.as_str()),
            None => None,
        };
        let rpc_request_header = <RpcRequestHeader as FromMap>::from(map);
        Some(TopicRequestHeader { lo, rpc_request_header })
    }
}

} // verus!
