//! The plugin itself, its description for dprint, and its answer to a
//! configuration update.
use vstd::prelude::*;
use vstd::string::StringExecFns;
use dprint_core::plugins::{CheckConfigUpdatesMessage, ConfigChange};
use crate::format::FormatFailure;

verus! {

/// The dprint plugin that formats CMake files with cmakefmt.
#[derive(Default)]
pub struct CMakeFmtPlugin;

/// What the plugin tells dprint about itself.
#[derive(Clone, Debug, PartialEq, Eq)]
pub struct PluginInfo {
    pub name: String,
    pub version: String,
    pub config_key: String,
    pub help_url: String,
    pub config_schema_url: String,
    pub update_url: Option<String>,
}

/// The license the plugin is distributed under, bundled with it so that dprint
/// can show it.
pub const LICENSE_TEXT: &'static str = "MIT License

Copyright (c) the dprint-cmakefmt authors

Permission is hereby granted, free of charge, to any person obtaining a copy
of this software and associated documentation files (the \"Software\"), to deal
in the Software without restriction, including without limitation the rights
to use, copy, modify, merge, publish, distribute, sublicense, and/or sell
copies of the Software, and to permit persons to whom the Software is
furnished to do so, subject to the following conditions:

The above copyright notice and this permission notice shall be included in all
copies or substantial portions of the Software.

THE SOFTWARE IS PROVIDED \"AS IS\", WITHOUT WARRANTY OF ANY KIND, EXPRESS OR
IMPLIED, INCLUDING BUT NOT LIMITED TO THE WARRANTIES OF MERCHANTABILITY,
FITNESS FOR A PARTICULAR PURPOSE AND NONINFRINGEMENT. IN NO EVENT SHALL THE
AUTHORS OR COPYRIGHT HOLDERS BE LIABLE FOR ANY CLAIM, DAMAGES OR OTHER
LIABILITY, WHETHER IN AN ACTION OF CONTRACT, TORT OR OTHERWISE, ARISING FROM,
OUT OF OR IN CONNECTION WITH THE SOFTWARE OR THE USE OR OTHER DEALINGS IN THE
SOFTWARE.
";

/// The package name the plugin is published under.
pub open spec fn plugin_name() -> Seq<char> {
    "dprint-cmakefmt"@
}

/// The key of the plugin's section in dprint's configuration.
pub open spec fn plugin_config_key() -> Seq<char> {
    "cmakefmt"@
}

/// Where the JSON schema of the plugin's configuration is published for a version.
pub open spec fn schema_url(version: Seq<char>) -> Seq<char> {
    "https://plugins.dprint.dev/sargunv/dprint-cmakefmt/"@ + version + "/schema.json"@
}

/// Where dprint looks for newer releases of the plugin.
pub open spec fn plugin_update_url() -> Seq<char> {
    "https://plugins.dprint.dev/sargunv/dprint-cmakefmt/latest.json"@
}

impl CMakeFmtPlugin {
    /// The plugin's description, for the given package version and repository URL.
    pub fn plugin_info(&mut self, version: &str, repository: &str) -> (r: PluginInfo)
        ensures
            r.name@ == plugin_name(),
            r.version@ == version@,
            r.config_key@ == plugin_config_key(),
            r.help_url@ == repository@,
            r.config_schema_url@ == schema_url(version@),
            r.update_url.deep_view() == Some(plugin_update_url()),
    {
        let mut config_schema_url = "https://plugins.dprint.dev/sargunv/dprint-cmakefmt/".to_owned();
        config_schema_url.append(version);
        config_schema_url.append("/schema.json");
        PluginInfo {
            name: "dprint-cmakefmt".to_owned(),
            version: version.to_owned(),
            config_key: "cmakefmt".to_owned(),
            help_url: repository.to_owned(),
            config_schema_url,
            update_url: Some("https://plugins.dprint.dev/sargunv/dprint-cmakefmt/latest.json".to_owned()),
        }
    }

    /// The plugin's license text.
    pub fn license_text(&mut self) -> (r: String)
        ensures
            r@ == LICENSE_TEXT@,
    {
        LICENSE_TEXT.to_owned()
    }

    /// The changes the plugin makes to its configuration after an upgrade:
    /// none, since no option was ever renamed or removed.
    pub fn check_config_updates(&self, message: CheckConfigUpdatesMessage) -> (r: Result<Vec<ConfigChange>, FormatFailure>)
        ensures
            r matches Ok(changes) && changes@.len() == 0,
    {
        Ok(Vec::new())
    }
}

} // verus!
