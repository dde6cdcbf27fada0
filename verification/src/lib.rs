//! Client library for the Poli Page PDF rendering API: the error model, the
//! retry policy and the decisions of the request loop, request shaping
//! (URLs, headers, path encoding, idempotency keys), and the wire-shape types.

pub mod config;
pub mod documents;
pub mod duration;
pub mod error;
pub mod events;
pub mod idempotency;
pub mod path_encoding;
pub mod request;
pub mod retry_policy;
pub mod text;
pub mod transport;
pub mod types;

pub use error::{error_codes, Error};
pub use events::{RequestEvent, ResponseEvent, RetryEvent};
pub use types::{
    DocumentPreviewResult, Environment, Orientation, PageFormat, PreviewResult, Thumbnail,
    ThumbnailFormat, ThumbnailOptions,
};
