//! Client library for a remote media-extraction service: request encoding,
//! decoding of the service's untagged replies, failure classification and the
//! decisions of the download streamer, each with a verified contract.
pub mod api;
pub mod structs;
