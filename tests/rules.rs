use gitignore_gen::catalog::detection_rules;
use gitignore_gen::rules::matches_rule;
use gitignore_gen::traversal::{build_dir_tech, decide, should_visit, Decision, Entry};

#[test]
fn catalog_has_unique_names() {
    let rules = detection_rules();
    assert_eq!(rules.len(), 35);
    for (i, a) in rules.iter().enumerate() {
        for b in rules.iter().skip(i + 1) {
            assert_ne!(a.name, b.name);
        }
    }
}

#[test]
fn matcher_checks_names_paths_and_extensions() {
    let rules = detection_rules();
    let rust = rules.iter().find(|r| r.name == "Rust").unwrap();
    let rails = rules.iter().find(|r| r.name == "Rails").unwrap();
    assert!(matches_rule(rust, "Cargo.toml", "Cargo.toml", false));
    assert!(!matches_rule(rust, "cargo.toml", "cargo.toml", false));
    assert!(matches_rule(rust, "lib.rs", "src/lib.rs", false));
    assert!(matches_rule(rust, "target", "target", true));
    assert!(!matches_rule(rust, "target", "target", false));
    assert!(!matches_rule(rust, "rs", "rs", false));
    assert!(matches_rule(rails, "routes.rb", "config/routes.rb", false));
    assert!(!matches_rule(rails, "routes.rb", "routes.rb", false));
    assert!(matches_rule(rails, "models", "x/app/models", true));
    assert!(!matches_rule(rails, "app", "app", true));
}

#[test]
fn build_dirs_map_to_technologies() {
    assert_eq!(build_dir_tech("target"), Some("Rust".to_string()));
    assert_eq!(build_dir_tech("node_modules"), Some("Node".to_string()));
    assert_eq!(build_dir_tech("__pycache__"), Some("Python".to_string()));
    assert_eq!(build_dir_tech("_build"), Some("Elixir".to_string()));
    assert_eq!(build_dir_tech("deps"), Some("Elixir".to_string()));
    assert_eq!(build_dir_tech("vendor"), None);
}

fn entry(name: &str, is_dir: bool, depth: usize, has_git_file: bool) -> Entry {
    Entry { name: name.to_string(), rel_path: name.to_string(), is_dir, depth, has_git_file }
}

#[test]
fn filter_decisions() {
    assert!(matches!(should_visit(&entry(".git", false, 1, false)), Decision::Descend));
    assert!(matches!(should_visit(&entry(".git", true, 1, false)), Decision::PruneSilently));
    assert!(matches!(should_visit(&entry("sub", true, 2, true)), Decision::PruneSilently));
    assert!(matches!(should_visit(&entry(".target", true, 1, false)), Decision::PruneSilently));
    match should_visit(&entry("TARGET", true, 1, false)) {
        Decision::PruneWithSignal(t) => assert_eq!(t, "Rust"),
        _ => panic!("expected a signal"),
    }
    assert!(matches!(should_visit(&entry("Out", true, 1, false)), Decision::PruneSilently));
    assert!(matches!(should_visit(&entry("src", true, 1, false)), Decision::Descend));
    assert!(matches!(should_visit(&entry("vendor", true, 1, false)), Decision::Descend));
}

#[test]
fn decisions_on_lowered_names() {
    match decide(&entry("Whatever", true, 1, false), "node_modules") {
        Decision::PruneWithSignal(t) => assert_eq!(t, "Node"),
        _ => panic!("expected a signal"),
    }
    assert!(matches!(decide(&entry("x", true, 1, false), "dist"), Decision::PruneSilently));
    assert!(matches!(decide(&entry(".x", true, 1, false), "target"), Decision::PruneSilently));
    assert!(matches!(decide(&entry("x", false, 1, false), "target"), Decision::Descend));
    assert!(matches!(decide(&entry("x", true, 0, true), "x"), Decision::Descend));
}
