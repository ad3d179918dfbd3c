//! Building Windows installers (msi) for a Cargo project with the WiX Toolset:
//! the settings of one installer build, and every decision that the build makes
//! on its way from the package manifest to the linked installer.

pub mod wix;
pub mod path;
pub mod error;
pub mod manifest;
pub mod version;
pub mod create;
pub mod run;
pub mod message;
pub mod laws;
pub mod meaning;
