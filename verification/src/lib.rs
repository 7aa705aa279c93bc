//! Typed client core for a JSON-over-HTTP messaging gateway.
//!
//! The library validates contact/group identifiers, models request bodies as
//! ordered field lists, encodes them as JSON text, and assembles the full
//! request (URL, authentication header, body) for a remote endpoint route.
//! Issuing the HTTP call itself is left to the embedding application.

pub mod client;
pub mod error;
pub mod json;
pub mod options;
pub mod wxid;

pub use client::ApiClient;
pub use client::ApiClientBuilder;
pub use client::PreparedRequest;
pub use error::ApiError;
pub use json::JsonParam;
pub use json::RequestBody;
pub use options::ContactOperationType;
pub use options::PrivacyOperationType;
pub use options::Sex;
pub use wxid::Wxid;
