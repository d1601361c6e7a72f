//! The design service: addresses of its site, the rules of its REST
//! interface, and the store of the images that it exported.

pub mod client;
pub mod image_cache;
pub mod shared_cache;
pub mod url_parser;

pub use client::FigmaClient;
pub use image_cache::ImageCache;
pub use image_cache::ImageEntry;
pub use url_parser::FigmaUrlInfo;
pub use url_parser::FigmaUrlParser;
pub use url_parser::FigmaUrlType;
