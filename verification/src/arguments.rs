//! The argument vectors handed to the build tool.

use crate::config::{Config, ConfigView};
use crate::invocation::{Invocation, InvocationView};
use vstd::prelude::*;

verus! {

/// The build tool's action `verb`, scoped to the configured package.
pub open spec fn scope_spec(verb: Seq<char>, config: ConfigView) -> Seq<Seq<char>> {
    seq![verb, "--package"@, config.package]
}

/// The pair that selects the `full` feature set: present where the package
/// has that set and the build is not barebones.
pub open spec fn feature_pair_spec(config: ConfigView, barebones: bool) -> Seq<Seq<char>> {
    if config.features && !barebones {
        seq!["--features"@, "full"@]
    } else {
        Seq::empty()
    }
}

/// The switch that asks for an optimized build.
pub open spec fn release_switch_spec(release: bool) -> Seq<Seq<char>> {
    if release {
        seq!["--release"@]
    } else {
        Seq::empty()
    }
}

/// The arguments of a build or a run: the scoped action, the feature pair,
/// the release switch, and last what the user passed through.
pub open spec fn build_spec(
    verb: Seq<char>,
    config: ConfigView,
    release: bool,
    barebones: bool,
    args: Seq<Seq<char>>,
) -> Seq<Seq<char>> {
    scope_spec(verb, config) + feature_pair_spec(config, barebones) + release_switch_spec(release)
        + args
}

/// The arguments that run the linker updater on the linker manifest and the
/// plugins directory.
pub open spec fn update_spec(config: ConfigView) -> Seq<Seq<char>> {
    seq![
        "run"@,
        "-q"@,
        "-p"@,
        "linker_updater"@,
        "--"@,
        config.linker_manifest,
        config.plugins_dir,
    ]
}

/// The argument vector of the invocation's own call of the build tool; `None`
/// for a subcommand that calls no tool.
pub open spec fn tool_args_spec(config: ConfigView, invocation: InvocationView) -> Option<
    Seq<Seq<char>>,
> {
    match invocation {
        InvocationView::Build { release, barebones, args } => Some(
            build_spec("build"@, config, release, barebones, args),
        ),
        InvocationView::Run { release, barebones, args } => Some(
            build_spec("run"@, config, release, barebones, args),
        ),
        InvocationView::Check { args } => Some(scope_spec("check"@, config) + args),
        InvocationView::Lint { args } => Some(scope_spec("clippy"@, config) + args),
        InvocationView::Test { args } => Some(scope_spec("test"@, config) + args),
        InvocationView::UpdateLinker => Some(update_spec(config)),
        _ => None,
    }
}

/// `first` stands in `v` directly before `second`.
pub open spec fn has_pair(v: Seq<Seq<char>>, first: Seq<char>, second: Seq<char>) -> bool {
    exists|i: int| 0 <= i && i + 1 < v.len() && #[trigger] v[i] == first && v[i + 1] == second
}

/// What the user passes through reaches the build tool unchanged: it is the
/// tail of the argument vector, every argument in its place, and nothing
/// follows it.
pub proof fn law_passthrough_is_forwarded_last(config: ConfigView, invocation: InvocationView)
    requires
        tool_args_spec(config, invocation) is Some,
    ensures
        ({
            let args = tool_args_spec(config, invocation)->0;
            let passed = invocation.passthrough();
            &&& passed.len() <= args.len()
            &&& args.subrange(args.len() - passed.len(), args.len() as int) == passed
        }),
{
    let args = tool_args_spec(config, invocation)->0;
    let passed = invocation.passthrough();
    assert(args.subrange(args.len() - passed.len(), args.len() as int) =~= passed);
}

/// A build or a run that is not barebones, of a package with the `full`
/// feature set, names that set: `--features` stands in its argument vector,
/// directly before `full`.
pub proof fn law_build_names_features_unless_barebones(
    config: ConfigView,
    invocation: InvocationView,
)
    requires
        invocation is Build || invocation is Run,
        config.features,
        !invocation.barebones(),
    ensures
        has_pair(tool_args_spec(config, invocation)->0, "--features"@, "full"@),
{
    let args = tool_args_spec(config, invocation)->0;
    assert(args[3] == "--features"@ && args[4] == "full"@);
}

/// A barebones build or run does not name the `full` feature set, and neither
/// does one of a package that has no such set: the pair `--features full` is
/// not in its argument vector, unless the user passed that pair through or
/// the package itself is called `--features`.
pub proof fn law_barebones_build_omits_features(config: ConfigView, invocation: InvocationView)
    requires
        invocation is Build || invocation is Run,
        invocation.barebones() || !config.features,
        config.package != "--features"@,
        !has_pair(invocation.passthrough(), "--features"@, "full"@),
    ensures
        !has_pair(tool_args_spec(config, invocation)->0, "--features"@, "full"@),
{
    let args = tool_args_spec(config, invocation)->0;
    let passed = invocation.passthrough();
    let head = args.len() - passed.len();
    reveal_strlit("build");
    reveal_strlit("run");
    reveal_strlit("--package");
    reveal_strlit("--release");
    reveal_strlit("--features");
    assert forall|i: int| 0 <= i && i + 1 < args.len() && #[trigger] args[i] == "--features"@
        implies args[i + 1] != "full"@ by {
        // The verb, `--package` and `--release` differ from `--features` in length.
        assert("--features"@.len() == 10);
        assert(i >= head);
        assert(passed[i - head] == args[i] && passed[i - head + 1] == args[i + 1]);
    }
}

fn push_text(v: &mut Vec<String>, s: &str)
    ensures
        final(v).deep_view() == old(v).deep_view().push(s@),
{
    v.push(s.to_string());
    assert(v.deep_view() =~= old(v).deep_view().push(s@));
}

fn push_all(v: &mut Vec<String>, more: &Vec<String>)
    ensures
        final(v).deep_view() == old(v).deep_view() + more.deep_view(),
{
    let mut i: usize = 0;
    while i < more.len()
        invariant
            i <= more.len(),
            v.deep_view() == old(v).deep_view() + more.deep_view().take(i as int),
        decreases more.len() - i,
    {
        let ghost before = v.deep_view();
        push_text(v, more[i].as_str());
        assert(more.deep_view().take(i + 1) =~= more.deep_view().take(i as int).push(more[i as int]@));
        assert(v.deep_view() =~= old(v).deep_view() + more.deep_view().take(i + 1));
        i += 1;
    }
    assert(more.deep_view().take(more.len() as int) =~= more.deep_view());
}

fn scope(verb: &str, config: &Config) -> (args: Vec<String>)
    ensures
        args.deep_view() == scope_spec(verb@, config@),
{
    let mut args: Vec<String> = Vec::new();
    assert(args.deep_view() =~= Seq::<Seq<char>>::empty());
    push_text(&mut args, verb);
    push_text(&mut args, "--package");
    push_text(&mut args, config.package.as_str());
    assert(args.deep_view() =~= scope_spec(verb@, config@));
    args
}

fn build(verb: &str, config: &Config, release: bool, barebones: bool, passthrough: &Vec<String>) -> (args:
    Vec<String>)
    ensures
        args.deep_view() == build_spec(verb@, config@, release, barebones, passthrough.deep_view()),
{
    let mut args = scope(verb, config);
    if config.features && !barebones {
        push_text(&mut args, "--features");
        push_text(&mut args, "full");
    }
    assert(args.deep_view() =~= scope_spec(verb@, config@) + feature_pair_spec(config@, barebones));
    if release {
        push_text(&mut args, "--release");
    }
    assert(args.deep_view() =~= scope_spec(verb@, config@) + feature_pair_spec(config@, barebones)
        + release_switch_spec(release));
    push_all(&mut args, passthrough);
    args
}

fn scoped(verb: &str, config: &Config, passthrough: &Vec<String>) -> (args: Vec<String>)
    ensures
        args.deep_view() == scope_spec(verb@, config@) + passthrough.deep_view(),
{
    let mut args = scope(verb, config);
    push_all(&mut args, passthrough);
    args
}

/// The argument vector of the Update operation: the linker updater, run on
/// the configured linker manifest and plugins directory.
pub fn update(config: &Config) -> (args: Vec<String>)
    ensures
        args.deep_view() == update_spec(config@),
{
    let mut args: Vec<String> = Vec::new();
    assert(args.deep_view() =~= Seq::<Seq<char>>::empty());
    push_text(&mut args, "run");
    push_text(&mut args, "-q");
    push_text(&mut args, "-p");
    push_text(&mut args, "linker_updater");
    push_text(&mut args, "--");
    push_text(&mut args, config.linker_manifest.as_str());
    push_text(&mut args, config.plugins_dir.as_str());
    assert(args.deep_view() =~= update_spec(config@));
    args
}

/// The argument vector of the invocation's own call of the build tool, where
/// it makes one.
pub fn tool_args(config: &Config, invocation: &Invocation) -> (args: Option<Vec<String>>)
    ensures
        match args {
            Some(v) => tool_args_spec(config@, invocation@) == Some(v.deep_view()),
            None => tool_args_spec(config@, invocation@) is None,
        },
{
    match invocation {
        Invocation::Build { release, barebones, args } => Some(
            build("build", config, *release, *barebones, args),
        ),
        Invocation::Run { release, barebones, args } => Some(
            build("run", config, *release, *barebones, args),
        ),
        Invocation::Check { args } => Some(scoped("check", config, args)),
        Invocation::Lint { args } => Some(scoped("clippy", config, args)),
        Invocation::Test { args } => Some(scoped("test", config, args)),
        Invocation::UpdateLinker => Some(update(config)),
        _ => None,
    }
}

} // verus!
