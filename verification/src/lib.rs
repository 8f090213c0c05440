//! Packaging metadata for a compiled project: the manifest model, the rules
//! that resolve it, and the text of the build descriptor that results.

pub mod checksum;
pub mod config;
pub mod depends;
pub mod error;
pub mod host;
pub mod license;
pub mod pipeline;
pub mod pkgbuild;
pub mod resolve;
pub mod text;
pub mod toolchain;

pub use crate::config::{Aur, Binary, Config, Metadata, Package};
pub use crate::error::Error;
pub use crate::host::GitHost;
pub use crate::license::LICENSES;
pub use crate::resolve::Resolved;
