use lunac::arguments::{tool_args, update};
use lunac::config::Config;
use lunac::invocation::Invocation;

fn strings(items: &[&str]) -> Vec<String> {
    items.iter().map(|s| s.to_string()).collect()
}

fn has_pair(args: &[String], first: &str, second: &str) -> bool {
    args.windows(2).any(|w| w[0] == first && w[1] == second)
}

#[test]
fn build_release_names_full_features() {
    let invocation = Invocation::Build { release: true, barebones: false, args: vec![] };
    let args = tool_args(&Config::lunaris(), &invocation).unwrap();
    assert_eq!(
        args,
        strings(&["build", "--package", "lunaris", "--features", "full", "--release"])
    );
    assert!(has_pair(&args, "--features", "full"));
    assert!(args.contains(&"--release".to_string()));
}

#[test]
fn build_release_barebones_omits_features() {
    let invocation = Invocation::Build { release: true, barebones: true, args: vec![] };
    let args = tool_args(&Config::lunaris(), &invocation).unwrap();
    assert_eq!(args, strings(&["build", "--package", "lunaris", "--release"]));
    assert!(!has_pair(&args, "--features", "full"));
    assert!(args.contains(&"--release".to_string()));
}

#[test]
fn build_plain_has_features_and_no_release() {
    let invocation = Invocation::Build { release: false, barebones: false, args: vec![] };
    let args = tool_args(&Config::lunaris(), &invocation).unwrap();
    assert_eq!(args, strings(&["build", "--package", "lunaris", "--features", "full"]));
}

#[test]
fn build_barebones_alone_is_the_scoped_action() {
    let invocation = Invocation::Build { release: false, barebones: true, args: vec![] };
    let args = tool_args(&Config::lunaris(), &invocation).unwrap();
    assert_eq!(args, strings(&["build", "--package", "lunaris"]));
}

#[test]
fn build_appends_passthrough_after_the_switches() {
    let invocation = Invocation::Build {
        release: true,
        barebones: false,
        args: strings(&["--target", "x86_64-unknown-linux-gnu", "-v"]),
    };
    let args = tool_args(&Config::lunaris(), &invocation).unwrap();
    assert_eq!(
        args,
        strings(&[
            "build",
            "--package",
            "lunaris",
            "--features",
            "full",
            "--release",
            "--target",
            "x86_64-unknown-linux-gnu",
            "-v",
        ])
    );
}

#[test]
fn barebones_build_keeps_a_feature_pair_that_was_passed_through() {
    let invocation = Invocation::Build {
        release: false,
        barebones: true,
        args: strings(&["--features", "full"]),
    };
    let args = tool_args(&Config::lunaris(), &invocation).unwrap();
    assert_eq!(args, strings(&["build", "--package", "lunaris", "--features", "full"]));
}

#[test]
fn run_args_follow_the_same_order_as_build() {
    let invocation = Invocation::Run {
        release: true,
        barebones: false,
        args: strings(&["--", "project.luna"]),
    };
    let args = tool_args(&Config::lunaris(), &invocation).unwrap();
    assert_eq!(
        args,
        strings(&[
            "run",
            "--package",
            "lunaris",
            "--features",
            "full",
            "--release",
            "--",
            "project.luna",
        ])
    );
}

#[test]
fn run_barebones_omits_features() {
    let invocation = Invocation::Run { release: false, barebones: true, args: vec![] };
    let args = tool_args(&Config::lunaris(), &invocation).unwrap();
    assert_eq!(args, strings(&["run", "--package", "lunaris"]));
}

#[test]
fn check_is_scoped_and_forwards() {
    let invocation = Invocation::Check { args: strings(&["--all-targets"]) };
    let args = tool_args(&Config::lunaris(), &invocation).unwrap();
    assert_eq!(args, strings(&["check", "--package", "lunaris", "--all-targets"]));
}

#[test]
fn lint_calls_clippy() {
    let invocation = Invocation::Lint { args: strings(&["--", "-D", "warnings"]) };
    let args = tool_args(&Config::lunaris(), &invocation).unwrap();
    assert_eq!(args, strings(&["clippy", "--package", "lunaris", "--", "-D", "warnings"]));
}

#[test]
fn test_forwards_nocapture_and_foo_in_order() {
    let invocation = Invocation::Test { args: strings(&["--nocapture", "foo"]) };
    let args = tool_args(&Config::lunaris(), &invocation).unwrap();
    assert_eq!(args, strings(&["test", "--package", "lunaris", "--nocapture", "foo"]));
    assert_eq!(&args[args.len() - 2..], &strings(&["--nocapture", "foo"])[..]);
}

#[test]
fn passthrough_is_not_reordered_nor_deduplicated() {
    let passed = strings(&["b", "a", "b", "", "--release", "a", "b"]);
    let invocation = Invocation::Test { args: passed.clone() };
    let args = tool_args(&Config::lunaris(), &invocation).unwrap();
    assert_eq!(args.len(), 3 + passed.len());
    assert_eq!(&args[3..], &passed[..]);
}

#[test]
fn passthrough_keeps_text_that_is_not_ascii() {
    let passed = strings(&["--name", "größe", "日本語"]);
    let invocation = Invocation::Check { args: passed.clone() };
    let args = tool_args(&Config::lunaris(), &invocation).unwrap();
    assert_eq!(&args[3..], &passed[..]);
}

#[test]
fn without_passthrough_only_the_base_is_sent() {
    for invocation in [
        Invocation::Check { args: vec![] },
        Invocation::Lint { args: vec![] },
        Invocation::Test { args: vec![] },
    ] {
        let args = tool_args(&Config::lunaris(), &invocation).unwrap();
        assert_eq!(args.len(), 3);
        assert_eq!(&args[1..], &strings(&["--package", "lunaris"])[..]);
    }
}

#[test]
fn update_runs_the_linker_updater_on_manifest_and_plugins() {
    assert_eq!(
        update(&Config::lunaris()),
        strings(&[
            "run",
            "-q",
            "-p",
            "linker_updater",
            "--",
            "crates/linker/Cargo.toml",
            "plugins/",
        ])
    );
}

#[test]
fn update_subcommand_has_the_update_vector() {
    let config = Config::lunaris();
    assert_eq!(tool_args(&config, &Invocation::UpdateLinker), Some(update(&config)));
}

#[test]
fn update_follows_the_configured_paths() {
    let config = Config {
        package: "demo".to_string(),
        features: false,
        linker_manifest: "tools/link/Cargo.toml".to_string(),
        plugins_dir: "ext/".to_string(),
    };
    assert_eq!(
        update(&config),
        strings(&["run", "-q", "-p", "linker_updater", "--", "tools/link/Cargo.toml", "ext/"])
    );
}

#[test]
fn core_product_has_its_own_package_and_linker_manifest() {
    let config = Config::lunaris_core();
    assert_eq!(config.package, "lunaris_core");
    assert!(!config.features);
    assert_eq!(config.linker_manifest, "linker/Cargo.toml");
    assert_eq!(config.plugins_dir, "plugins/");
    assert_eq!(
        update(&config),
        strings(&["run", "-q", "-p", "linker_updater", "--", "linker/Cargo.toml", "plugins/"])
    );
}

#[test]
fn full_product_settings() {
    let config = Config::lunaris();
    assert_eq!(config.package, "lunaris");
    assert!(config.features);
    assert_eq!(config.linker_manifest, "crates/linker/Cargo.toml");
    assert_eq!(config.plugins_dir, "plugins/");
}

#[test]
fn core_product_never_names_features() {
    for barebones in [false, true] {
        let invocation = Invocation::Build { release: true, barebones, args: strings(&["-v"]) };
        let args = tool_args(&Config::lunaris_core(), &invocation).unwrap();
        assert_eq!(args, strings(&["build", "--package", "lunaris_core", "--release", "-v"]));
    }
}

#[test]
fn stubs_have_no_tool_args() {
    let config = Config::lunaris();
    for invocation in [
        Invocation::AddPlugin { plugin: "blur".to_string() },
        Invocation::RemovePlugin { plugin: "blur".to_string() },
        Invocation::AlignVersions,
        Invocation::ValidateManifest,
        Invocation::NewPlugin { plugin_type: "effect".to_string(), name: "glow".to_string() },
    ] {
        assert_eq!(tool_args(&config, &invocation), None);
    }
}
