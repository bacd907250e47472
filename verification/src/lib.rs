//! Verified core of an OpenAI-compatible client SDK: request-path encoding,
//! server-sent-event decoding, retry policy, pagination, header and JSON-body
//! merging, webhook signature checks and the provider-adapter mappings.

pub mod text;
pub mod path;
pub mod json;
pub mod error;
pub mod sse;
pub mod sse_frame;
pub mod retry;
pub mod webhook;
pub mod strmap;
pub mod request_options;
pub mod pagination;
pub mod files;
pub mod provider;
pub mod provider_utils;
pub mod openai_provider;
pub mod headers;
pub mod client;
pub mod cli;
pub mod openai_compat;
pub mod types;
pub mod sse_stream;
pub mod compat_params;
pub mod compat_resources;
pub mod resources;
pub mod objects;
pub mod compat_objects;
