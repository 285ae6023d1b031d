//! Guest-side binding for a workflow sandbox: the payload and failure
//! envelopes, their codec, and what the guest hands to its host.
//!
//! A guest is started by its host with an [`Info`], whose arguments are
//! [`Payload`]s, and ends with one call to the host: with a payload or none,
//! or with a [`Failure`]. On the wire each of them is an envelope, a JSON
//! object in which every byte string stands as base64 text.

pub mod base64;
pub mod base64_string_map;
pub mod error;
pub mod failure;
pub mod host;
pub mod info;
pub mod json;
pub mod log;
pub mod metadata;
pub mod payload;
pub mod report;

pub use crate::error::{DecodeError, EncodeError, Field, Flaw, ParamError, ValidationError};
pub use crate::failure::{is_false, Failure};
pub use crate::host::{complete, complete_with_failure, conclude, write_log, HostCall};
pub use crate::info::Info;
pub use crate::log::LogLevel;
pub use crate::metadata::Metadata;
pub use crate::payload::Payload;
