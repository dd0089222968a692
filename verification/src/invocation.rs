//! A parsed command line.

use vstd::prelude::*;

verus! {

/// One request to the front-end: the subcommand, with the fields that this
/// subcommand has and no others.
#[derive(Debug, Clone, PartialEq, Eq)]
pub enum Invocation {
    /// Build the package. `args` are forwarded to the build tool as they are.
    Build { release: bool, barebones: bool, args: Vec<String> },
    /// Update the plugin linker, then run the package.
    Run { release: bool, barebones: bool, args: Vec<String> },
    /// Check the package without building it.
    Check { args: Vec<String> },
    /// Run the linter on the package.
    Lint { args: Vec<String> },
    /// Run the package's tests.
    Test { args: Vec<String> },
    /// Update the plugin linker.
    UpdateLinker,
    /// Add a plugin dependency, by name or path.
    AddPlugin { plugin: String },
    /// Remove a plugin dependency, by name.
    RemovePlugin { plugin: String },
    /// Align the versions of the plugins.
    AlignVersions,
    /// Validate the project's plugin manifest.
    ValidateManifest,
    /// Create a new plugin of the given type.
    NewPlugin { plugin_type: String, name: String },
}

/// An `Invocation` as plain values.
pub enum InvocationView {
    Build { release: bool, barebones: bool, args: Seq<Seq<char>> },
    Run { release: bool, barebones: bool, args: Seq<Seq<char>> },
    Check { args: Seq<Seq<char>> },
    Lint { args: Seq<Seq<char>> },
    Test { args: Seq<Seq<char>> },
    UpdateLinker,
    AddPlugin { plugin: Seq<char> },
    RemovePlugin { plugin: Seq<char> },
    AlignVersions,
    ValidateManifest,
    NewPlugin { plugin_type: Seq<char>, name: Seq<char> },
}

impl View for Invocation {
    type V = InvocationView;

    open spec fn view(&self) -> InvocationView {
        match *self {
            Invocation::Build { release, barebones, args } => InvocationView::Build {
                release,
                barebones,
                args: args.deep_view(),
            },
            Invocation::Run { release, barebones, args } => InvocationView::Run {
                release,
                barebones,
                args: args.deep_view(),
            },
            Invocation::Check { args } => InvocationView::Check { args: args.deep_view() },
            Invocation::Lint { args } => InvocationView::Lint { args: args.deep_view() },
            Invocation::Test { args } => InvocationView::Test { args: args.deep_view() },
            Invocation::UpdateLinker => InvocationView::UpdateLinker,
            Invocation::AddPlugin { plugin } => InvocationView::AddPlugin { plugin: plugin@ },
            Invocation::RemovePlugin { plugin } => InvocationView::RemovePlugin { plugin: plugin@ },
            Invocation::AlignVersions => InvocationView::AlignVersions,
            Invocation::ValidateManifest => InvocationView::ValidateManifest,
            Invocation::NewPlugin { plugin_type, name } => InvocationView::NewPlugin {
                plugin_type: plugin_type@,
                name: name@,
            },
        }
    }
}

impl InvocationView {
    /// The subcommands that are accepted and acknowledged, and do nothing yet.
    pub open spec fn is_stub(self) -> bool {
        self is AddPlugin || self is RemovePlugin || self is AlignVersions
            || self is ValidateManifest || self is NewPlugin
    }

    /// Whether the optional feature set is to be left out; only a build or a
    /// run can ask for that.
    pub open spec fn barebones(self) -> bool {
        match self {
            InvocationView::Build { barebones, .. } => barebones,
            InvocationView::Run { barebones, .. } => barebones,
            _ => false,
        }
    }

    /// The arguments that the user gave for the build tool; empty for a
    /// subcommand that forwards none.
    pub open spec fn passthrough(self) -> Seq<Seq<char>> {
        match self {
            InvocationView::Build { args, .. } => args,
            InvocationView::Run { args, .. } => args,
            InvocationView::Check { args } => args,
            InvocationView::Lint { args } => args,
            InvocationView::Test { args } => args,
            _ => Seq::empty(),
        }
    }
}

} // verus!
