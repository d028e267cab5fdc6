//! Typed JSON request bodies for a middleware pipeline.
//!
//! A [`BodyReader`] is a pipeline stage bound to one target type. It takes the
//! outcome of decoding a request body and either files the decoded value in
//! the request's [`Slot`] for that type or aborts with a [`DecodeError`].
//! Later stages read the value back with [`json_params`].

pub mod error;
pub mod reader;
pub mod store;

pub use crate::error::{Cause, DecodeError};
pub use crate::reader::{deserialize, json_params, BodyReader};
pub use crate::store::Slot;
