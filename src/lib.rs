//! Composition of presentation videos: request validation and the
//! translation of a request into encoder invocations.
pub mod domain;
pub mod validate;
pub mod command;
pub mod assembly;
pub mod text;
pub mod encoder;
pub mod slide_image;
pub mod probe;
