//! The deciding core of a client for the VLive video platform.
//!
//! The platform has no public API. What a video's streams are has to be
//! pieced together: from the state that the video's page embeds in a
//! script, from a short-lived access key, and from the descriptor that the
//! streaming service hands to the holder of that key.
//!
//! This crate decides and computes; it performs no input or output and
//! decodes no JSON. It says which request to send next and what an answer
//! means, and its contracts say so exactly:
//!
//! - `extract` finds the embedded state in the bytes of a page;
//! - `invariance` shows what the result of extraction does not depend on;
//! - `pipeline` is the resolution of a video as a state machine;
//! - `bridge` and `endpoints` describe the requests and their addresses;
//! - `model` holds the documents of the platform and reads their fields;
//! - `error` is the closed set of failures of a resolution;
//! - `text` holds the operations on text that the others share.

pub mod bridge;
pub mod endpoints;
pub mod error;
pub mod extract;
pub mod invariance;
pub mod model;
pub mod pipeline;
pub mod text;

pub use error::Error;
