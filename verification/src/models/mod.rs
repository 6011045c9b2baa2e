//! The data the launcher reads from Mojang's servers and its own settings.
pub mod assets;
pub mod internal;
pub mod manifest;
pub mod piston_meta;

pub use internal::OxiditeConfig;
pub use internal::OxiditeError;
pub use internal::OxiditeResult;
pub use internal::ProgressReport;
pub use manifest::Latest;
pub use manifest::Manifest;
pub use manifest::Version;
pub use piston_meta::PistonMeta;
