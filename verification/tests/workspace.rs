use lunac::error::Error;
use lunac::text::{chars_of, contains, find};
use lunac::workspace::{
    find_workspace_root, has_workspace_marker, search_begin, search_next, Probe, Step,
    MANIFEST_NAME, WORKSPACE_MARKER,
};

fn root() -> Probe {
    Probe::Content("[workspace]\nmembers = [\"crates/*\"]\n".to_string())
}

fn member() -> Probe {
    Probe::Content("[package]\nname = \"linker\"\nversion = \"0.1.0\"\n".to_string())
}

/// A chain of `n` directories without a root, with a root on top of them.
fn chain_with_root_at(n: usize) -> Vec<Probe> {
    let mut probes = Vec::new();
    for i in 0..n {
        probes.push(if i % 2 == 0 { Probe::Missing } else { member() });
    }
    probes.push(root());
    probes
}

#[test]
fn names_of_manifest_and_marker() {
    assert_eq!(MANIFEST_NAME, "Cargo.toml");
    assert_eq!(WORKSPACE_MARKER, "[workspace]");
}

#[test]
fn root_in_the_starting_directory() {
    assert_eq!(find_workspace_root(&vec![root()]), Ok(0));
    assert_eq!(find_workspace_root(&vec![root(), Probe::Missing, Probe::Missing]), Ok(0));
}

#[test]
fn root_some_levels_up() {
    for n in [1, 2, 3, 7, 50, 500] {
        let mut probes = chain_with_root_at(n);
        assert_eq!(find_workspace_root(&probes), Ok(n));
        probes.push(Probe::Missing);
        probes.push(Probe::Missing);
        assert_eq!(find_workspace_root(&probes), Ok(n));
    }
}

#[test]
fn same_root_from_every_descendant() {
    let chain = vec![member(), root(), Probe::Missing];
    assert_eq!(find_workspace_root(&chain), Ok(1));
    for below in 0..5 {
        let mut probes = vec![Probe::Missing; below];
        probes.extend(chain.iter().cloned());
        assert_eq!(find_workspace_root(&probes), Ok(below + 1));
    }
}

#[test]
fn nearest_root_wins() {
    let probes = vec![Probe::Missing, root(), member(), root()];
    assert_eq!(find_workspace_root(&probes), Ok(1));
}

#[test]
fn no_root_up_to_the_top() {
    assert_eq!(find_workspace_root(&vec![Probe::Missing]), Err(Error::WorkspaceNotFound));
    assert_eq!(
        find_workspace_root(&vec![member(), Probe::Missing, member(), Probe::Missing]),
        Err(Error::WorkspaceNotFound)
    );
    assert_eq!(
        find_workspace_root(&vec![Probe::Missing; 2000]),
        Err(Error::WorkspaceNotFound)
    );
}

#[test]
fn no_directories_at_all() {
    assert_eq!(find_workspace_root(&vec![]), Err(Error::WorkspaceNotFound));
}

#[test]
fn unreadable_manifest_below_the_root_is_fatal() {
    let probes = vec![Probe::Missing, Probe::Unreadable, root()];
    assert_eq!(find_workspace_root(&probes), Err(Error::ManifestReadError));
    assert_eq!(find_workspace_root(&vec![Probe::Unreadable]), Err(Error::ManifestReadError));
}

#[test]
fn unreadable_manifest_above_the_root_is_never_looked_at() {
    let probes = vec![member(), root(), Probe::Unreadable];
    assert_eq!(find_workspace_root(&probes), Ok(1));
}

#[test]
fn marker_is_a_plain_substring() {
    assert!(has_workspace_marker("[workspace]"));
    assert!(has_workspace_marker("[workspace]\nmembers = []\n"));
    assert!(has_workspace_marker("[package]\nname = \"x\"\n\n[workspace]"));
    assert!(has_workspace_marker("# not a table: [workspace] in a comment"));
    assert!(has_workspace_marker("[[workspace]]"));
    assert!(has_workspace_marker("größe = 1 # ü\n[workspace]\n"));
}

#[test]
fn marker_must_be_whole() {
    assert!(!has_workspace_marker(""));
    assert!(!has_workspace_marker("[package]\nname = \"x\"\n"));
    assert!(!has_workspace_marker("[workspace.dependencies]\nserde = \"1\"\n"));
    assert!(!has_workspace_marker("[workspace"));
    assert!(!has_workspace_marker("workspace]"));
    assert!(!has_workspace_marker("[Workspace]"));
    assert!(!has_workspace_marker("[work space]"));
    assert!(!has_workspace_marker("[workspac]e]"));
}

#[test]
fn member_of_a_workspace_is_no_root() {
    let probes = vec![
        Probe::Content("[package]\nname = \"a\"\n[workspace.dependencies]\n".to_string()),
        root(),
    ];
    assert_eq!(find_workspace_root(&probes), Ok(1));
}

#[test]
fn probe_is_root_only_with_the_marker() {
    assert!(root().is_root());
    assert!(!member().is_root());
    assert!(!Probe::Missing.is_root());
    assert!(!Probe::Unreadable.is_root());
}

#[test]
fn contains_agrees_with_std() {
    let texts = ["", "a", "ab", "abc", "aab", "aaab", "abab", "日本語", "a日b", "[workspace]"];
    for text in texts {
        for pattern in texts {
            assert_eq!(contains(text, pattern), text.contains(pattern), "{text:?} {pattern:?}");
        }
    }
}

#[test]
fn contains_edges() {
    assert!(contains("", ""));
    assert!(contains("abc", ""));
    assert!(!contains("", "a"));
    assert!(!contains("ab", "abc"));
    assert!(contains("xxabc", "abc"));
    assert!(contains("abcxx", "abc"));
    assert!(contains("aab", "ab"));
    assert!(!contains("abab", "aba b"));
}

#[test]
fn chars_and_find() {
    assert_eq!(chars_of("aé日"), vec!['a', 'é', '日']);
    assert_eq!(chars_of(""), Vec::<char>::new());
    assert!(find(&vec!['a', 'b', 'c'], &vec!['b', 'c']));
    assert!(!find(&vec!['a', 'b', 'c'], &vec!['c', 'b']));
    assert!(find(&vec![], &vec![]));
}

#[test]
fn search_begins_at_the_starting_directory() {
    assert_eq!(search_begin(0), Step::Fail { error: Error::WorkspaceNotFound });
    assert_eq!(search_begin(1), Step::Inspect { level: 0 });
    assert_eq!(search_begin(9), Step::Inspect { level: 0 });
}

#[test]
fn search_moves_up_one_level_at_a_time() {
    assert_eq!(search_next(0, 3, &Probe::Missing), Step::Inspect { level: 1 });
    assert_eq!(search_next(1, 3, &member()), Step::Inspect { level: 2 });
    assert_eq!(search_next(2, 3, &Probe::Missing), Step::Fail { error: Error::WorkspaceNotFound });
    assert_eq!(search_next(0, 1, &member()), Step::Fail { error: Error::WorkspaceNotFound });
}

#[test]
fn search_stops_at_a_root_or_an_unreadable_manifest() {
    assert_eq!(search_next(0, 3, &root()), Step::Found { level: 0 });
    assert_eq!(search_next(2, 3, &root()), Step::Found { level: 2 });
    assert_eq!(
        search_next(1, 3, &Probe::Unreadable),
        Step::Fail { error: Error::ManifestReadError }
    );
}

#[test]
fn search_never_leaves_the_chain() {
    assert_eq!(
        search_next(usize::MAX, usize::MAX, &Probe::Missing),
        Step::Fail { error: Error::WorkspaceNotFound }
    );
    assert_eq!(
        search_next(5, 3, &Probe::Missing),
        Step::Fail { error: Error::WorkspaceNotFound }
    );
    let depth = 40;
    let mut step = search_begin(depth);
    let mut steps = 0;
    while let Step::Inspect { level } = step {
        assert!(level < depth);
        assert_eq!(level, steps);
        step = search_next(level, depth, &Probe::Missing);
        steps += 1;
    }
    assert_eq!(steps, depth);
    assert_eq!(step, Step::Fail { error: Error::WorkspaceNotFound });
}
