use gitignore_gen::analyzer::{analyze_entries, analyze_lowered};
use gitignore_gen::catalog::detection_rules;
use gitignore_gen::traversal::Entry;

fn root() -> Entry {
    Entry { name: "proj".to_string(), rel_path: String::new(), is_dir: true, depth: 0, has_git_file: false }
}

fn base(rel: &str) -> String {
    rel.rsplit('/').next().unwrap().to_string()
}

fn file(rel: &str) -> Entry {
    Entry {
        name: base(rel),
        rel_path: rel.to_string(),
        is_dir: false,
        depth: rel.split('/').count(),
        has_git_file: false,
    }
}

fn dir(rel: &str) -> Entry {
    Entry {
        name: base(rel),
        rel_path: rel.to_string(),
        is_dir: true,
        depth: rel.split('/').count(),
        has_git_file: false,
    }
}

fn names(v: &[&str]) -> Vec<String> {
    v.iter().map(|s| s.to_string()).collect()
}

#[test]
fn test_detect_rust() {
    let detected = analyze_entries(&vec![root(), file("Cargo.toml")]);
    assert!(detected.contains(&"Rust".to_string()));
}

#[test]
fn test_detect_multiple() {
    let detected = analyze_entries(&vec![root(), file("Cargo.toml"), file("package.json"), file("go.mod")]);
    assert!(detected.contains(&"Rust".to_string()));
    assert!(detected.contains(&"Node".to_string()));
    assert!(detected.contains(&"Go".to_string()));
}

#[test]
fn test_detect_by_extension() {
    let detected = analyze_entries(&vec![root(), file("main.py")]);
    assert!(detected.contains(&"Python".to_string()));
}

#[test]
fn lone_cargo_toml_gives_only_rust() {
    assert_eq!(analyze_entries(&vec![root(), file("Cargo.toml")]), names(&["Rust"]));
}

#[test]
fn marker_order_does_not_matter() {
    let a = analyze_entries(&vec![root(), file("go.mod"), file("package.json"), file("Cargo.toml")]);
    let b = analyze_entries(&vec![root(), file("Cargo.toml"), file("go.mod"), file("package.json")]);
    assert_eq!(a, names(&["Go", "Node", "Rust"]));
    assert_eq!(a, b);
}

#[test]
fn lone_python_file_gives_python() {
    assert_eq!(analyze_entries(&vec![root(), file("main.py")]), names(&["Python"]));
}

#[test]
fn node_modules_is_signal_and_not_walked() {
    let listing = vec![root(), dir("node_modules"), file("node_modules/go.mod"), file("node_modules/x.rs")];
    assert_eq!(analyze_entries(&listing), names(&["Node"]));
}

#[test]
fn node_modules_is_matched_in_any_case() {
    let listing = vec![root(), dir("Node_Modules"), file("Node_Modules/go.mod")];
    assert_eq!(analyze_entries(&listing), names(&["Node"]));
}

#[test]
fn hidden_directory_is_not_walked() {
    let listing = vec![root(), dir(".git"), file(".git/Cargo.toml"), dir(".idea")];
    assert_eq!(analyze_entries(&listing), Vec::<String>::new());
}

#[test]
fn nested_repository_is_not_walked() {
    let mut sub = dir("vendor_repo");
    sub.has_git_file = true;
    let listing = vec![root(), sub, file("vendor_repo/package.json"), file("go.mod")];
    assert_eq!(analyze_entries(&listing), names(&["Go"]));
}

#[test]
fn root_is_exempt_from_hidden_and_repository_checks() {
    let mut r = root();
    r.name = ".proj".to_string();
    r.has_git_file = true;
    assert_eq!(analyze_entries(&vec![r, file("go.mod")]), names(&["Go"]));
}

#[test]
fn marker_at_depth_four_is_ignored() {
    let listing = vec![root(), dir("a"), dir("a/b"), dir("a/b/c"), file("a/b/c/go.mod")];
    assert_eq!(analyze_entries(&listing), Vec::<String>::new());
}

#[test]
fn marker_at_depth_three_is_found() {
    let listing = vec![root(), dir("a"), dir("a/b"), file("a/b/go.mod")];
    assert_eq!(analyze_entries(&listing), names(&["Go"]));
}

#[test]
fn detection_is_repeatable() {
    let listing = vec![root(), file("CMakeLists.txt"), file("main.rs"), dir("src"), file("src/app.js")];
    let a = analyze_entries(&listing);
    let b = analyze_entries(&listing);
    assert_eq!(a, b);
}

#[test]
fn results_are_sorted_without_duplicates() {
    let listing = vec![root(), file("CMakeLists.txt"), file("Cargo.toml"), file("Cargo.lock"), file("main.rs"), dir("target")];
    assert_eq!(analyze_entries(&listing), names(&["C", "C++", "CMake", "Rust"]));
}

#[test]
fn path_patterns_match_relative_paths() {
    let listing = vec![root(), dir("config"), file("config/routes.rb"), dir("app"), dir("app/controllers")];
    assert_eq!(analyze_entries(&listing), names(&["Rails", "Ruby"]));
}

#[test]
fn name_without_dot_has_no_extension() {
    assert_eq!(analyze_entries(&vec![root(), file("Makefile")]), names(&["C"]));
    assert_eq!(analyze_entries(&vec![root(), file("r")]), Vec::<String>::new());
}

#[test]
fn plain_build_outputs_are_not_walked() {
    let listing = vec![root(), dir("dist"), file("dist/Cargo.toml"), dir("build"), file("build/go.mod")];
    assert_eq!(analyze_entries(&listing), Vec::<String>::new());
}

#[test]
fn build_dir_at_root_is_pruned_with_signal() {
    let mut r = root();
    r.name = "target".to_string();
    assert_eq!(analyze_entries(&vec![r, file("go.mod")]), names(&["Rust"]));
}

#[test]
fn empty_listing_detects_nothing() {
    assert_eq!(analyze_entries(&vec![]), Vec::<String>::new());
}

#[test]
fn sibling_after_pruned_directory_is_visited() {
    let listing = vec![root(), dir("deps"), file("deps/x.py"), file("main.go")];
    assert_eq!(analyze_entries(&listing), names(&["Elixir", "Go"]));
}

#[test]
fn lowered_names_drive_pruning() {
    let rules = detection_rules();
    let listing = vec![root(), dir("Pkgs"), file("Pkgs/go.mod"), file("Cargo.toml")];
    let low = names(&["proj", "node_modules", "pkgs/go.mod", "cargo.toml"]);
    assert_eq!(analyze_lowered(&rules, &listing, &low), names(&["Node", "Rust"]));
    let low = names(&["proj", "pkgs", "go.mod", "cargo.toml"]);
    assert_eq!(analyze_lowered(&rules, &listing, &low), names(&["Go", "Rust"]));
}

#[test]
fn four_rust_signals_give_rust_once() {
    let listing = vec![root(), file("Cargo.toml"), file("Cargo.lock"), file("main.rs"), dir("target")];
    assert_eq!(analyze_entries(&listing), names(&["Rust"]));
}
