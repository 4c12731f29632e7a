//! Meson: file metadata helpers, flat object keys, blob-store selection,
//! S3 request signing, virus-scan pipeline decisions and File status helpers.

pub mod text;
pub mod status;
pub mod error;
pub mod keys;
pub mod hashing;
pub mod sigv4;
pub mod rustfs;
pub mod model;
pub mod ownership;
pub mod preview;
pub mod local;
pub mod install;
pub mod upload;
pub mod scan;
pub mod numbers;
pub mod env;
pub mod clamav;
pub mod promote;
pub mod readiness;
pub mod adapters;
pub mod pipeline;
pub mod factory;
pub mod image;
