//! What distinguishes one deployment of the front-end from another.

use vstd::prelude::*;

verus! {

/// The settings that the argument vectors depend on.
#[derive(Debug, Clone, PartialEq, Eq)]
pub struct Config {
    /// The package that every build-tool action is scoped to.
    pub package: String,
    /// Whether the package has the optional `full` feature set, which a
    /// barebones build leaves out.
    pub features: bool,
    /// Path of the linker component's manifest, handed to the linker updater.
    pub linker_manifest: String,
    /// Path of the plugins directory, handed to the linker updater.
    pub plugins_dir: String,
}

/// A `Config` as plain values.
pub struct ConfigView {
    pub package: Seq<char>,
    pub features: bool,
    pub linker_manifest: Seq<char>,
    pub plugins_dir: Seq<char>,
}

impl View for Config {
    type V = ConfigView;

    open spec fn view(&self) -> ConfigView {
        ConfigView {
            package: self.package@,
            features: self.features,
            linker_manifest: self.linker_manifest@,
            plugins_dir: self.plugins_dir@,
        }
    }
}

/// The settings of the full product: package `lunaris`, with the `full`
/// feature set.
pub open spec fn lunaris_spec() -> ConfigView {
    ConfigView {
        package: "lunaris"@,
        features: true,
        linker_manifest: "crates/linker/Cargo.toml"@,
        plugins_dir: "plugins/"@,
    }
}

/// The settings of the core-only product: package `lunaris_core`, which has no
/// optional feature set.
pub open spec fn lunaris_core_spec() -> ConfigView {
    ConfigView {
        package: "lunaris_core"@,
        features: false,
        linker_manifest: "linker/Cargo.toml"@,
        plugins_dir: "plugins/"@,
    }
}

impl Config {
    /// The settings of the full product.
    pub fn lunaris() -> (config: Config)
        ensures
            config@ == lunaris_spec(),
    {
        Config {
            package: "lunaris".to_string(),
            features: true,
            linker_manifest: "crates/linker/Cargo.toml".to_string(),
            plugins_dir: "plugins/".to_string(),
        }
    }

    /// The settings of the core-only product.
    pub fn lunaris_core() -> (config: Config)
        ensures
            config@ == lunaris_core_spec(),
    {
        Config {
            package: "lunaris_core".to_string(),
            features: false,
            linker_manifest: "linker/Cargo.toml".to_string(),
            plugins_dir: "plugins/".to_string(),
        }
    }
}

} // verus!
