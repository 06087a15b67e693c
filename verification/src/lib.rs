//! A minimal single-verb file-retrieval protocol engine.
//!
//! The library holds the verified core of a tiny `GET`-a-file protocol that
//! runs over a secure multiplexed transport: the wire codec for request
//! frames and responses, the path resolution that confines every request to
//! a configured root directory, and the per-stream and per-connection
//! decision logic. All transport, filesystem and logging work stays outside;
//! callers hand the library plain bytes and events and carry out the actions
//! it returns.

mod bytes;
mod codec;
mod connection;
mod error;
mod handler;
mod resolve;

pub use bytes::find_byte;
pub use bytes::starts_with;
pub use codec::Request;
pub use codec::Verb;
pub use codec::decode_request;
pub use codec::encode_failure;
pub use codec::encode_file_failure;
pub use codec::encode_request;
pub use codec::frame_well_formed;
pub use codec::decoded_path;
pub use codec::encoded_request;
pub use codec::failure_response;
pub use codec::failure_prefix;
pub use codec::file_error_prefix;
pub use codec::lemma_request_round_trip;
pub use error::RequestError;
pub use error::reason_of;
pub use resolve::ResolvedPath;
pub use resolve::ServerRoot;
pub use resolve::resolve;
pub use resolve::resolve_post;
pub use resolve::is_absolute;
pub use resolve::has_parent;
pub use resolve::path_segments;
pub use resolve::resolved_view;
pub use resolve::parent_component;
pub use resolve::lemma_parent_rejected;
pub use resolve::lemma_relative_rejected;
pub use resolve::lemma_resolved_confined;
pub use resolve::lemma_resolve_deterministic;
pub use handler::HandlerStep;
pub use handler::MAX_REQUEST_SIZE;
pub use handler::escape_bytes;
pub use handler::escaped;
pub use handler::finish_exchange;
pub use handler::plan_exchange;
pub use handler::request_outcome;
pub use handler::lemma_fetched_path_confined;
pub use connection::AcceptEvent;
pub use connection::SupervisorAction;
pub use connection::supervisor_step;
