//! The RPC-identity field group: broker name and namespace routing metadata
//! shared by every routing-capable header, nested one level inside the topic
//! request sub-header.
use vstd::prelude::*;
use crate::command_custom_header::CommandCustomHeader;
use crate::command_custom_header::FromMap;
use crate::command_custom_header::HeaderError;
use crate::command_custom_header::opt_bool_field;
use crate::command_custom_header::opt_string_field;
use crate::field_map::FieldMap;
use crate::text::bool_text;
use crate::text::format_bool;
use crate::text::parse_bool;

verus! {

/// RPC-identity routing metadata. Every field is optional: an unset field is
/// omitted from the wire map entirely.
pub struct RpcRequestHeader {
    pub broker_name: Option<String>,
    pub namespace: Option<String>,
    pub namespaced: Option<bool>,
    pub oneway: Option<bool>,
}

/// The mathematical model of an RPC-identity field group.
pub ghost struct RpcRequestHeaderView {
    pub broker_name: Option<Seq<char>>,
    pub namespace: Option<Seq<char>>,
    pub namespaced: Option<bool>,
    pub oneway: Option<bool>,
}

impl View for RpcRequestHeader {
    type V = RpcRequestHeaderView;

    open spec fn view(&self) -> RpcRequestHeaderView {
        RpcRequestHeaderView {
            broker_name: match self.broker_name {
                Some(s) => Some(s@),
                None => None,
            },
            namespace: match self.namespace {
                Some(s) => Some(s@),
                None => None,
            },
            namespaced: self.namespaced,
            oneway: self.oneway,
        }
    }
}

/// The wire form of an RPC-identity group: each set field under its own key,
/// unset fields absent.
pub open spec fn rpc_wire_map(v: RpcRequestHeaderView) -> Map<Seq<char>, Seq<char>> {
    let m0 = Map::<Seq<char>, Seq<char>>::empty();
    let m1 = if v.broker_name is Some {
        m0.insert("brokerName"@, v.broker_name->Some_0)
    } else {
        m0
    };
    let m2 = if v.namespace is Some {
        m1.insert("namespace"@, v.namespace->Some_0)
    } else {
        m1
    };
    let m3 = if v.namespaced is Some {
        m2.insert("namespaced"@, bool_text(v.namespaced->Some_0))
    } else {
        m2
    };
    if v.oneway is Some {
        m3.insert("oneway"@, bool_text(v.oneway->Some_0))
    } else {
        m3
    }
}

/// What an RPC-identity group decodes to: it reads whichever of its keys are
/// present and ignores the rest.
pub open spec fn rpc_decoded(m: Map<Seq<char>, Seq<char>>) -> RpcRequestHeaderView {
    RpcRequestHeaderView {
        broker_name: opt_string_field(m, "brokerName"@),
        namespace: opt_string_field(m, "namespace"@),
        namespaced: opt_bool_field(m, "namespaced"@),
        oneway: opt_bool_field(m, "oneway"@),
    }
}

/// The four RPC-identity wire keys are pairwise distinct.
pub proof fn lemma_rpc_keys_distinct()
    ensures
        "brokerName"@ != "namespace"@,
        "brokerName"@ != "namespaced"@,
        "brokerName"@ != "oneway"@,
        "namespace"@ != "namespaced"@,
        "namespace"@ != "oneway"@,
        "namespaced"@ != "oneway"@,
{
    reveal_strlit("brokerName");
    reveal_strlit("namespace");
    reveal_strlit("namespaced");
    reveal_strlit("oneway");
    assert("brokerName"@.len() == 10);
    assert("namespace"@.len() == 9);
    assert("namespaced"@.len() == 10);
    assert("oneway"@.len() == 6);
    assert("brokerName"@[0] == 'b');
    assert("namespaced"@[0] == 'n');
}

/// The wire map of an RPC-identity group holds no key but its own four.
pub proof fn lemma_rpc_wire_map_dom(v: RpcRequestHeaderView, k: Seq<char>)
    requires
        k != "brokerName"@,
        k != "namespace"@,
        k != "namespaced"@,
        k != "oneway"@,
    ensures
        !rpc_wire_map(v).contains_key(k),
{
}

/// Law: an RPC-identity group decoded from its own wire map is the group it
/// was encoded from, for every combination of set and unset fields.
pub proof fn lemma_rpc_round_trip(v: RpcRequestHeaderView)
    ensures
        rpc_decoded(rpc_wire_map(v)) == v,
{
    lemma_rpc_keys_distinct();
    if v.namespaced is Some {
        crate::text::lemma_bool_text_round_trip(v.namespaced->Some_0);
    }
    if v.oneway is Some {
        crate::text::lemma_bool_text_round_trip(v.oneway->Some_0);
    }
}

impl CommandCustomHeader for RpcRequestHeader {
    open spec fn wire_map(&self) -> Map<Seq<char>, Seq<char>> {
        rpc_wire_map(self@)
    }

    open spec fn fields_valid(&self) -> bool {
        true
    }

    fn to_map(&self) -> (r: Option<FieldMap>) {
        let mut map = FieldMap::new();
        match &self.broker_name {
            Some(s) => map.insert("brokerName", s.clone()),
            None => (),
        }
        match &self.namespace {
            Some(s) => map.insert("namespace", s.clone()),
            None => (),
        }
        match self.namespaced {
            Some(b) => map.insert("namespaced", format_bool(b)),
            None => (),
        }
        match self.oneway {
            Some(b) => map.insert("oneway", format_bool(b)),
            None => (),
        }
        Some(map)
    }

    fn check_fields(&self) -> (r: Result<(), HeaderError>) {
        Ok(())
    }
}

impl FromMap for RpcRequestHeader {
    open spec fn decoded(m: Map<Seq<char>, Seq<char>>) -> RpcRequestHeaderView {
        rpc_decoded(m)
    }

    fn from(map: &FieldMap) -> (r: Option<RpcRequestHeader>) {
        let broker_name = map.get("brokerName");
        let namespace = map.get("namespace");
        let namespaced: Option<bool> = match map.get("namespaced") {
            Some(s) => parse_bool(s.as_str()),
            None => None,
        };
        let oneway: Option<bool> = match map.get("oneway") {
            Some(s) => parse_bool(s.as_str()),
            None => None,
        };
        Some(RpcRequestHeader { broker_name, namespace, namespaced, oneway })
    }
}

} // verus!
