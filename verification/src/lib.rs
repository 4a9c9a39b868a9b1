//! Header-serialization layer of a message-broker remoting protocol.
//!
//! Typed request headers are flattened into a string-keyed field map for the
//! wire, and rebuilt from such a map on receipt, with lenient defaults for
//! absent or unparsable fields. A shared routing sub-header is composed into
//! the concrete header types that carry routing metadata.

pub mod broker_request_header;
pub mod command_custom_header;
pub mod field_map;
pub mod get_max_offset_request_header;
pub mod rpc_request_header;
pub mod text;
pub mod topic_request_header;
