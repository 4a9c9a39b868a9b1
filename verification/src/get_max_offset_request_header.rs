//! The request header asking a broker for a queue's maximum offset: a
//! topic-addressed header that composes the routing sub-header and exposes
//! its fields through accessor methods.
use vstd::prelude::*;
use vstd::pervasive::unreached;
use crate::command_custom_header::CommandCustomHeader;
use crate::command_custom_header::FromMap;
use crate::command_custom_header::HeaderError;
use crate::command_custom_header::bool_field_or;
use crate::command_custom_header::i32_field_or_zero;
use crate::command_custom_header::string_field_or_empty;
use crate::field_map::FieldMap;
use crate::rpc_request_header::RpcRequestHeaderView;
use crate::rpc_request_header::lemma_rpc_keys_distinct;
use crate::rpc_request_header::lemma_rpc_wire_map_dom;
use crate::text::bool_text;
use crate::text::dec_int;
use crate::text::format_bool;
use crate::text::format_i32;
use crate::text::parse_bool;
use crate::text::parse_i32;
use crate::text::parse_bool_text;
use crate::topic_request_header::TopicRequestHeader;
use crate::topic_request_header::TopicRequestHeaderView;
use crate::topic_request_header::lemma_lo_key_distinct;
use crate::topic_request_header::lemma_topic_request_wire_map_dom;
use crate::topic_request_header::topic_request_decoded;
use crate::topic_request_header::topic_request_wire_map;

verus! {

/// Header of a max-offset request. The topic is promoted to a first-class
/// field and is the source of truth; the remaining routing fields live in the
/// embedded sub-header.
pub struct GetMaxOffsetRequestHeader {
    pub topic: String,
    pub queue_id: i32,
    pub committed: bool,
    pub topic_request_header: Option<TopicRequestHeader>,
}

/// The mathematical model of a max-offset request header.
pub ghost struct GetMaxOffsetRequestHeaderView {
    pub topic: Seq<char>,
    pub queue_id: i32,
    pub committed: bool,
    pub topic_request_header: Option<TopicRequestHeaderView>,
}

impl GetMaxOffsetRequestHeaderView {
    /// The routing sub-header and its nested RPC-identity group are present;
    /// guaranteed after any decode, and a precondition of the routing
    /// accessors.
    pub open spec fn has_routing(self) -> bool {
        &&& self.topic_request_header is Some
        &&& self.topic_request_header->Some_0.rpc_request_header is Some
    }

    /// The nested RPC-identity group.
    pub open spec fn rpc(self) -> RpcRequestHeaderView
        recommends
            self.has_routing(),
    {
        self.topic_request_header->Some_0.rpc_request_header->Some_0
    }
}

impl View for GetMaxOffsetRequestHeader {
    type V = GetMaxOffsetRequestHeaderView;

    open spec fn view(&self) -> GetMaxOffsetRequestHeaderView {
        GetMaxOffsetRequestHeaderView {
            topic: self.topic@,
            queue_id: self.queue_id,
            committed: self.committed,
            topic_request_header: match self.topic_request_header {
                Some(t) => Some(t@),
                None => None,
            },
        }
    }
}

impl Default for GetMaxOffsetRequestHeader {
    /// The declared defaults: empty topic, queue zero, committed reads, no
    /// routing sub-header.
    fn default() -> (r: Self)
        ensures
            r@.topic == Seq::<char>::empty(),
            r@.queue_id == 0,
            r@.committed == true,
            r@.topic_request_header is None,
    {
        GetMaxOffsetRequestHeader {
            topic: String::new(),
            queue_id: 0,
            committed: true,
            topic_request_header: None,
        }
    }
}

/// The wire form: the header's own three fields, merged with every key of the
/// embedded routing sub-header when one is present.
pub open spec fn get_max_offset_wire_map(v: GetMaxOffsetRequestHeaderView) -> Map<
    Seq<char>,
    Seq<char>,
> {
    let m = Map::<Seq<char>, Seq<char>>::empty().insert("topic"@, v.topic).insert(
        "queueId"@,
        dec_int(v.queue_id as int),
    ).insert("committed"@, bool_text(v.committed));
    match v.topic_request_header {
        Some(t) => m.union_prefer_right(topic_request_wire_map(t)),
        None => m,
    }
}

/// What a wire map decodes to: lenient defaults for the header's own fields,
/// and a routing sub-header that is always present afterwards.
pub open spec fn get_max_offset_decoded(m: Map<Seq<char>, Seq<char>>) -> GetMaxOffsetRequestHeaderView {
    GetMaxOffsetRequestHeaderView {
        topic: string_field_or_empty(m, "topic"@),
        queue_id: i32_field_or_zero(m, "queueId"@),
        committed: bool_field_or(m, "committed"@, true),
        topic_request_header: Some(topic_request_decoded(m)),
    }
}

/// The header's own three wire keys are pairwise distinct and distinct from
/// every routing sub-header key.
pub proof fn lemma_get_max_offset_keys_distinct()
    ensures
        "topic"@ != "queueId"@,
        "topic"@ != "committed"@,
        "queueId"@ != "committed"@,
        "topic"@ != "lo"@,
        "topic"@ != "brokerName"@,
        "topic"@ != "namespace"@,
        "topic"@ != "namespaced"@,
        "topic"@ != "oneway"@,
        "queueId"@ != "lo"@,
        "queueId"@ != "brokerName"@,
        "queueId"@ != "namespace"@,
        "queueId"@ != "namespaced"@,
        "queueId"@ != "oneway"@,
        "committed"@ != "lo"@,
        "committed"@ != "brokerName"@,
        "committed"@ != "namespace"@,
        "committed"@ != "namespaced"@,
        "committed"@ != "oneway"@,
{
    reveal_strlit("topic");
    reveal_strlit("queueId");
    reveal_strlit("committed");
    reveal_strlit("lo");
    reveal_strlit("brokerName");
    reveal_strlit("namespace");
    reveal_strlit("namespaced");
    reveal_strlit("oneway");
    assert("topic"@.len() == 5);
    assert("queueId"@.len() == 7);
    assert("committed"@.len() == 9);
    assert("lo"@.len() == 2);
    assert("brokerName"@.len() == 10);
    assert("namespace"@.len() == 9);
    assert("namespaced"@.len() == 10);
    assert("oneway"@.len() == 6);
    assert("committed"@[0] == 'c');
    assert("namespace"@[0] == 'n');
}

/// Law: a header whose routing sub-header is fully present decodes from its
/// own wire map back to itself, for every combination of field values.
pub proof fn lemma_get_max_offset_round_trip(v: GetMaxOffsetRequestHeaderView)
    requires
        v.has_routing(),
    ensures
        get_max_offset_decoded(get_max_offset_wire_map(v)) == v,
{
    lemma_get_max_offset_keys_distinct();
    lemma_lo_key_distinct();
    lemma_rpc_keys_distinct();
    let t = v.topic_request_header->Some_0;
    let r = t.rpc_request_header->Some_0;
    lemma_topic_request_wire_map_dom(t, "topic"@);
    lemma_topic_request_wire_map_dom(t, "queueId"@);
    lemma_topic_request_wire_map_dom(t, "committed"@);
    lemma_rpc_wire_map_dom(r, "lo"@);
    crate::text::lemma_i32_text_round_trip(v.queue_id);
    crate::text::lemma_bool_text_round_trip(v.committed);
    if t.lo is Some {
        crate::text::lemma_bool_text_round_trip(t.lo->Some_0);
    }
    if r.namespaced is Some {
        crate::text::lemma_bool_text_round_trip(r.namespaced->Some_0);
    }
    if r.oneway is Some {
        crate::text::lemma_bool_text_round_trip(r.oneway->Some_0);
    }
}

/// Law: the header's own three fields survive the encode-decode round trip
/// whether or not a routing sub-header is embedded.
pub proof fn lemma_get_max_offset_direct_fields_round_trip(v: GetMaxOffsetRequestHeaderView)
    ensures
        get_max_offset_decoded(get_max_offset_wire_map(v)).topic == v.topic,
        get_max_offset_decoded(get_max_offset_wire_map(v)).queue_id == v.queue_id,
        get_max_offset_decoded(get_max_offset_wire_map(v)).committed == v.committed,
{
    lemma_get_max_offset_keys_distinct();
    if v.topic_request_header is Some {
        let t = v.topic_request_header->Some_0;
        lemma_topic_request_wire_map_dom(t, "topic"@);
        lemma_topic_request_wire_map_dom(t, "queueId"@);
        lemma_topic_request_wire_map_dom(t, "committed"@);
    }
    crate::text::lemma_i32_text_round_trip(v.queue_id);
    crate::text::lemma_bool_text_round_trip(v.committed);
}

/// Law: every required field's key is present in the wire map, whatever the
/// field values and whether or not a routing sub-header is embedded.
pub proof fn lemma_get_max_offset_required_keys_always_present(v: GetMaxOffsetRequestHeaderView)
    ensures
        get_max_offset_wire_map(v).contains_key("topic"@),
        get_max_offset_wire_map(v).contains_key("queueId"@),
        get_max_offset_wire_map(v).contains_key("committed"@),
{
    lemma_get_max_offset_keys_distinct();
}

/// Law: decoding a map that lacks the queue-id key yields queue id zero, not
/// a decode failure.
pub proof fn lemma_missing_queue_id_decodes_to_zero(m: Map<Seq<char>, Seq<char>>)
    requires
        !m.contains_key("queueId"@),
    ensures
        get_max_offset_decoded(m).queue_id == 0,
{
}

/// Law: a committed value that is not boolean text falls back to the declared
/// default of true rather than failing the decode.
pub proof fn lemma_unparsable_committed_decodes_to_true(m: Map<Seq<char>, Seq<char>>)
    requires
        m.contains_key("committed"@),
        parse_bool_text(m["committed"@]) is None,
    ensures
        get_max_offset_decoded(m).committed == true,
{
}

/// Law: an unset optional routing field leaves its key out of the wire map
/// entirely, and a set one puts it in.
pub proof fn lemma_optional_routing_keys_present_iff(v: GetMaxOffsetRequestHeaderView)
    ensures
        get_max_offset_wire_map(v).contains_key("lo"@) <==> (v.topic_request_header is Some
            && v.topic_request_header->Some_0.lo is Some),
        get_max_offset_wire_map(v).contains_key("brokerName"@) <==> (v.has_routing()
            && v.rpc().broker_name is Some),
        get_max_offset_wire_map(v).contains_key("namespace"@) <==> (v.has_routing()
            && v.rpc().namespace is Some),
        get_max_offset_wire_map(v).contains_key("namespaced"@) <==> (v.has_routing()
            && v.rpc().namespaced is Some),
        get_max_offset_wire_map(v).contains_key("oneway"@) <==> (v.has_routing()
            && v.rpc().oneway is Some),
{
    lemma_get_max_offset_keys_distinct();
    lemma_lo_key_distinct();
    lemma_rpc_keys_distinct();
}

impl CommandCustomHeader for GetMaxOffsetRequestHeader {
    open spec fn wire_map(&self) -> Map<Seq<char>, Seq<char>> {
        get_max_offset_wire_map(self@)
    }

    open spec fn fields_valid(&self) -> bool {
        true
    }

    fn to_map(&self) -> (r: Option<FieldMap>) {
        let mut map = FieldMap::new();
        map.insert("topic", self.topic.clone());
        map.insert("queueId", format_i32(self.queue_id));
        map.insert("committed", format_bool(self.committed));
        match &self.topic_request_header {
            Some(t) => {
                match t.to_map() {
                    Some(sub) => map.merge(&sub),
                    None => (),
                }
            },
            None => (),
        }
        Some(map)
    }

    fn check_fields(&self) -> (r: Result<(), HeaderError>) {
        Ok(())
    }
}

impl FromMap for GetMaxOffsetRequestHeader {
    open spec fn decoded(m: Map<Seq<char>, Seq<char>>) -> GetMaxOffsetRequestHeaderView {
        get_max_offset_decoded(m)
    }

    fn from(map: &FieldMap) -> (r: Option<GetMaxOffsetRequestHeader>) {
        let topic: String = match map.get("topic") {
            Some(s) => s,
            None => String::new(),
        };
        let queue_id: i32 = match map.get("queueId") {
            Some(s) => match parse_i32(s.as_str()) {
                Some(v) => v,
                None => 0,
            },
            None => 0,
        };
        let committed: bool = match map.get("committed") {
            Some(s) => match parse_bool(s.as_str()) {
                Some(b) => b,
                None => true,
            },
            None => true,
        };
        let topic_request_header = <TopicRequestHeader as FromMap>::from(map);
        Some(GetMaxOffsetRequestHeader { topic, queue_id, committed, topic_request_header })
    }
}

impl GetMaxOffsetRequestHeader {
    /// Sets the low-latency flag inside the embedded sub-header.
    pub fn set_lo(&mut self, lo: Option<bool>)
        requires
            old(self)@.topic_request_header is Some,
        ensures
            (final(self)@ == (GetMaxOffsetRequestHeaderView {
                topic_request_header: Some(
                    TopicRequestHeaderView { lo, ..old(self)@.topic_request_header->Some_0 },
                ),
                ..old(self)@
            })),
    {
        let mut t = match self.topic_request_header.take() {
            Some(t) => t,
            None => unreached(),
        };
        t.lo = lo;
        self.topic_request_header = Some(t);
    }

    /// Reads the low-latency flag from the embedded sub-header.
    pub fn lo(&self) -> (r: Option<bool>)
        requires
            self@.topic_request_header is Some,
        ensures
            r == self@.topic_request_header->Some_0.lo,
    {
        match &self.topic_request_header {
            Some(t) => t.lo,
            None => unreached(),
        }
    }

    /// Sets the topic. The parent field is the source of truth; the embedded
    /// sub-header is not touched.
    pub fn set_topic(&mut self, topic: String)
        ensures
            (final(self)@ == (GetMaxOffsetRequestHeaderView { topic: topic@, ..old(self)@ })),
    {
        self.topic = topic;
    }

    /// Reads the topic from the parent field.
    pub fn topic(&self) -> (r: &str)
        ensures
            r@ == self@.topic,
    {
        self.topic.as_str()
    }

    /// Reads the broker name from the nested RPC-identity group.
    pub fn broker_name(&self) -> (r: Option<&str>)
        requires
            self@.has_routing(),
        ensures
            (match r {
                Some(s) => self@.rpc().broker_name == Some(s@),
                None => self@.rpc().broker_name is None,
            }),
    {
        let t = match &self.topic_request_header {
            Some(t) => t,
            None => unreached(),
        };
        let rpc = match &t.rpc_request_header {
            Some(r) => r,
            None => unreached(),
        };
        match &rpc.broker_name {
            Some(s) => Some(s.as_str()),
            None => None,
        }
    }

    /// Sets the broker name inside the nested RPC-identity group.
    pub fn set_broker_name(&mut self, broker_name: String)
        requires
            old(self)@.has_routing(),
        ensures
            (final(self)@ == (GetMaxOffsetRequestHeaderView {
                topic_request_header: Some(
                    TopicRequestHeaderView {
                        rpc_request_header: Some(
                            RpcRequestHeaderView {
                                broker_name: Some(broker_name@),
                                ..old(self)@.rpc()
                            },
                        ),
                        ..old(self)@.topic_request_header->Some_0
                    },
                ),
                ..old(self)@
            })),
    {
        let mut t = match self.topic_request_header.take() {
            Some(t) => t,
            None => unreached(),
        };
        let mut rpc = match t.rpc_request_header.take() {
            Some(r) => r,
            None => unreached(),
        };
        rpc.broker_name = Some(broker_name);
        t.rpc_request_header = Some(rpc);
        self.topic_request_header = Some(t);
    }

    /// Reads the namespace from the nested RPC-identity group.
    pub fn namespace(&self) -> (r: Option<&str>)
        requires
            self@.has_routing(),
        ensures
            (match r {
                Some(s) => self@.rpc().namespace == Some(s@),
                None => self@.rpc().namespace is None,
            }),
    {
        let t = match &self.topic_request_header {
            Some(t) => t,
            None => unreached(),
        };
        let rpc = match &t.rpc_request_header {
            Some(r) => r,
            None => unreached(),
        };
        match &rpc.namespace {
            Some(s) => Some(s.as_str()),
            None => None,
        }
    }

    /// Sets the namespace inside the nested RPC-identity group.
    pub fn set_namespace(&mut self, namespace: String)
        requires
            old(self)@.has_routing(),
        ensures
            (final(self)@ == (GetMaxOffsetRequestHeaderView {
                topic_request_header: Some(
                    TopicRequestHeaderView {
                        rpc_request_header: Some(
                            RpcRequestHeaderView { namespace: Some(namespace@), ..old(self)@.rpc() },
                        ),
                        ..old(self)@.topic_request_header->Some_0
                    },
                ),
                ..old(self)@
            })),
    {
        let mut t = match self.topic_request_header.take() {
            Some(t) => t,
            None => unreached(),
        };
        let mut rpc = match t.rpc_request_header.take() {
            Some(r) => r,
            None => unreached(),
        };
        rpc.namespace = Some(namespace);
        t.rpc_request_header = Some(rpc);
        self.topic_request_header = Some(t);
    }

    /// Reads the namespaced flag from the nested RPC-identity group.
    pub fn namespaced(&self) -> (r: Option<bool>)
        requires
            self@.has_routing(),
        ensures
            r == self@.rpc().namespaced,
    {
        let t = match &self.topic_request_header {
            Some(t) => t,
            None => unreached(),
        };
        match &t.rpc_request_header {
            Some(r) => r.namespaced,
            None => unreached(),
        }
    }

    /// Sets the namespaced flag inside the nested RPC-identity group.
    pub fn set_namespaced(&mut self, namespaced: bool)
        requires
            old(self)@.has_routing(),
        ensures
            (final(self)@ == (GetMaxOffsetRequestHeaderView {
                topic_request_header: Some(
                    TopicRequestHeaderView {
                        rpc_request_header: Some(
                            RpcRequestHeaderView {
                                namespaced: Some(namespaced),
                                ..old(self)@.rpc()
                            },
                        ),
                        ..old(self)@.topic_request_header->Some_0
                    },
                ),
                ..old(self)@
            })),
    {
        let mut t = match self.topic_request_header.take() {
            Some(t) => t,
            None => unreached(),
        };
        let mut rpc = match t.rpc_request_header.take() {
            Some(r) => r,
            None => unreached(),
        };
        rpc.namespaced = Some(namespaced);
        t.rpc_request_header = Some(rpc);
        self.topic_request_header = Some(t);
    }

    /// Reads the one-way flag from the nested RPC-identity group.
    pub fn oneway(&self) -> (r: Option<bool>)
        requires
            self@.has_routing(),
        ensures
            r == self@.rpc().oneway,
    {
        let t = match &self.topic_request_header {
            Some(t) => t,
            None => unreached(),
        };
        match &t.rpc_request_header {
            Some(r) => r.oneway,
            None => unreached(),
        }
    }

    /// Sets the one-way flag inside the nested RPC-identity group.
    pub fn set_oneway(&mut self, oneway: bool)
        requires
            old(self)@.has_routing(),
        ensures
            (final(self)@ == (GetMaxOffsetRequestHeaderView {
                topic_request_header: Some(
                    TopicRequestHeaderView {
                        rpc_request_header: Some(
                            RpcRequestHeaderView { oneway: Some(oneway), ..old(self)@.rpc() },
                        ),
                        ..old(self)@.topic_request_header->Some_0
                    },
                ),
                ..old(self)@
            })),
    {
        let mut t = match self.topic_request_header.take() {
            Some(t) => t,
            None => unreached(),
        };
        let mut rpc = match t.rpc_request_header.take() {
            Some(r) => r,
            None => unreached(),
        };
        rpc.oneway = Some(oneway);
        t.rpc_request_header = Some(rpc);
        self.topic_request_header = Some(t);
    }

    /// Reads the queue id from the parent field.
    pub fn queue_id(&self) -> (r: Option<i32>)
        ensures
            r == Some(self@.queue_id),
    {
        Some(self.queue_id)
    }

    /// Sets the queue id on the parent field; an unset argument means queue
    /// zero.
    pub fn set_queue_id(&mut self, queue_id: Option<i32>)
        ensures
            (final(self)@ == (GetMaxOffsetRequestHeaderView {
                queue_id: (match queue_id {
                    Some(q) => q,
                    None => 0,
                }),
                ..old(self)@
            })),
    {
        self.queue_id = match queue_id {
            Some(q) => q,
            None => 0,
        };
    }
}

} // verus!
