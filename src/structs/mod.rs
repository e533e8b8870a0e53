pub mod json;
pub mod media_error;
pub mod media_request;
pub mod media_response;
pub mod status;
pub mod text;

pub use status::Response as StatusResponse;
