//! A dprint plugin for CMake files, built on the cmakefmt formatter: how the
//! plugin's options are resolved from dprint's configuration, and how a file
//! is formatted.
pub mod foreign;
pub mod settings;
pub mod options;
pub mod plugin;
pub mod resolve;
pub mod format;
pub mod laws;

pub use crate::format::{FailureView, FormatFailure, FormatRequest};
pub use crate::options::ConfigurationDiagnostic;
pub use crate::plugin::{CMakeFmtPlugin, PluginInfo, LICENSE_TEXT};
pub use crate::resolve::{FileMatchingInfo, GlobalConfiguration, PluginResolveConfigurationResult};
pub use crate::settings::{
    Casing, CmakefmtSettings, ContinuationAlignment, DangleAlignment, LineEndingKind, NewLineKind,
    ResolvedConfig,
};

use vstd::prelude::*;

verus! {

} // verus!
