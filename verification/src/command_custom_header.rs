//! The uniform two-way mapping and validation protocol that every concrete
//! header type follows, and the lenient field-decoding policy shared by all
//! of them: an absent or unparsable required field degrades to its default
//! value instead of failing the decode, and an absent or unparsable optional
//! field decodes to nothing.
use vstd::prelude::*;
use crate::field_map::FieldMap;
use crate::text::parse_bool_text;
use crate::text::parse_i32_text;
use crate::text::parse_i64_text;
use crate::text::parse_u32_text;

verus! {

/// Error signalled by post-decode validation when a reconstructed header
/// cannot legally describe a request.
#[derive(Debug, Clone, PartialEq, Eq)]
pub enum HeaderError {
    InvalidHeader,
}

/// The header contract: a typed header projects to a wire map, and carries a
/// validation hook that callers invoke after decode and before acting on it.
pub trait CommandCustomHeader {
    /// The wire form of this header's fields: every required field, and every
    /// optional field that is currently set.
    spec fn wire_map(&self) -> Map<Seq<char>, Seq<char>>;

    /// Semantic well-formedness beyond what parsing alone can catch.
    spec fn fields_valid(&self) -> bool;

    /// Produces the wire representation of this header: a pure projection of
    /// its fields, with unset optional fields omitted entirely.
    fn to_map(&self) -> (r: Option<FieldMap>)
        ensures
            r matches Some(m) && m@ == self.wire_map(),
    ;

    /// Inspects the header for semantic well-formedness; the single point
    /// where a header signals that the request it describes cannot be
    /// honored.
    fn check_fields(&self) -> (r: Result<(), HeaderError>)
        ensures
            r is Ok <==> self.fields_valid(),
    ;
}

/// Reconstruction of a typed header from a wire map.
pub trait FromMap: Sized + View {
    /// The header model that a given wire map decodes to.
    spec fn decoded(m: Map<Seq<char>, Seq<char>>) -> Self::V;

    /// Reconstructs a typed header from a wire map, applying the lenient
    /// default policy field by field. Returns nothing only when
    /// reconstruction is structurally impossible, which it never is for the
    /// header types here.
    fn from(map: &FieldMap) -> (r: Option<Self>)
        ensures
            r matches Some(h) && h@ == Self::decoded(map@),
    ;
}

/// Decode of a required string field: absent means empty.
pub open spec fn string_field_or_empty(m: Map<Seq<char>, Seq<char>>, k: Seq<char>) -> Seq<char> {
    if m.contains_key(k) {
        m[k]
    } else {
        Seq::empty()
    }
}

/// Decode of an optional string field: absent means unset.
pub open spec fn opt_string_field(m: Map<Seq<char>, Seq<char>>, k: Seq<char>) -> Option<
    Seq<char>,
> {
    if m.contains_key(k) {
        Some(m[k])
    } else {
        None
    }
}

/// Decode of an optional boolean field: absent or unparsable means unset.
pub open spec fn opt_bool_field(m: Map<Seq<char>, Seq<char>>, k: Seq<char>) -> Option<bool> {
    if m.contains_key(k) {
        parse_bool_text(m[k])
    } else {
        None
    }
}

/// Decode of an optional signed 64-bit field: absent or unparsable means
/// unset.
pub open spec fn opt_i64_field(m: Map<Seq<char>, Seq<char>>, k: Seq<char>) -> Option<i64> {
    if m.contains_key(k) {
        parse_i64_text(m[k])
    } else {
        None
    }
}

/// Decode of a required boolean field: absent or unparsable means the
/// declared default.
pub open spec fn bool_field_or(m: Map<Seq<char>, Seq<char>>, k: Seq<char>, d: bool) -> bool {
    match opt_bool_field(m, k) {
        Some(b) => b,
        None => d,
    }
}

/// Decode of a required signed 64-bit field: absent or unparsable means
/// zero.
pub open spec fn i64_field_or_zero(m: Map<Seq<char>, Seq<char>>, k: Seq<char>) -> i64 {
    if m.contains_key(k) {
        match parse_i64_text(m[k]) {
            Some(v) => v,
            None => 0,
        }
    } else {
        0
    }
}

/// Decode of a required signed 32-bit field: absent or unparsable means
/// zero.
pub open spec fn i32_field_or_zero(m: Map<Seq<char>, Seq<char>>, k: Seq<char>) -> i32 {
    if m.contains_key(k) {
        match parse_i32_text(m[k]) {
            Some(v) => v,
            None => 0,
        }
    } else {
        0
    }
}

/// Decode of a required unsigned 32-bit field: absent or unparsable means
/// zero.
pub open spec fn u32_field_or_zero(m: Map<Seq<char>, Seq<char>>, k: Seq<char>) -> u32 {
    if m.contains_key(k) {
        match parse_u32_text(m[k]) {
            Some(v) => v,
            None => 0,
        }
    } else {
        0
    }
}

} // verus!
