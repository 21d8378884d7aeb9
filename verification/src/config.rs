//! Process-wide configuration, fixed at construction: the registry
//! repository, the server's names (on the local search path, inside the
//! release archive, and as the asset-name stem), the extension version
//! advertised to the server, and whether a missing local binary may be
//! installed over the network. An explicit struct rather than ambient
//! globals, so tests can substitute a fake registry and repository.

use vstd::prelude::*;

verus! {

pub struct Config {
    /// The `owner/name` repository queried for releases.
    pub repo: String,
    /// The binary name looked up on the local search path.
    pub search_binary: String,
    /// The binary file name the extracted archive places in the version
    /// directory.
    pub installed_binary: String,
    /// The leading part of every release-asset name.
    pub asset_stem: String,
    /// The extension version advertised in the initialization options.
    pub extension_version: String,
    /// Whether a missing local binary may be fetched from the registry;
    /// when false, provisioning fails with an instructive error instead.
    pub allow_network_install: bool,
}

/// The ghost image of a [`Config`]: the same fields over `Seq<char>`.
pub struct ConfigModel {
    pub repo: Seq<char>,
    pub search_binary: Seq<char>,
    pub installed_binary: Seq<char>,
    pub asset_stem: Seq<char>,
    pub extension_version: Seq<char>,
    pub allow_network_install: bool,
}

impl View for Config {
    type V = ConfigModel;

    open spec fn view(&self) -> ConfigModel {
        ConfigModel {
            repo: self.repo@,
            search_binary: self.search_binary@,
            installed_binary: self.installed_binary@,
            asset_stem: self.asset_stem@,
            extension_version: self.extension_version@,
            allow_network_install: self.allow_network_install,
        }
    }
}

} // verus!
