//! Static game data: JSON resources decoded into typed records, trimmed to a
//! locale and version configuration, and bundled into one snapshot.

pub mod application;
pub mod decode;
pub mod domain;
pub mod error;
pub mod filter;
pub mod infrastructure;
pub mod json;
pub mod text;
