//! Stable, re-fetchable resources for the images that a design service exports.
//!
//! The service hands out download addresses that stop working after an hour.
//! The cache in [`figma::image_cache`] gives each exported image an identifier
//! that stays valid, fetches the bytes on first use and remembers them.
//! Around it stand the address parser, the request and response rules of the
//! service's REST interface, and the decisions of the request dispatcher.

pub mod error;
pub mod figma;
pub mod json;
pub mod scale;
pub mod server;
pub mod text;
pub mod timestamp;

pub use error::Error;
