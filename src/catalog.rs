//! The catalog of detection rules and of build-output directories.
use vstd::prelude::*;
use crate::rules::{texts, DetectionRule, RuleView};

verus! {

pub open spec fn lit_texts(v: Seq<&str>) -> Seq<Seq<char>> {
    v.map_values(|s: &str| s@)
}

pub open spec fn rule_of(name: &str, files: Seq<&str>, extensions: Seq<&str>, directories: Seq<&str>) -> RuleView {
    RuleView {
        name: name@,
        files: lit_texts(files),
        extensions: lit_texts(extensions),
        directories: lit_texts(directories),
    }
}

/// Number of rules in the catalog.
pub const RULE_COUNT: usize = 35;

/// The rule at position `i` of the catalog.
pub open spec fn rule_at(i: int) -> RuleView {
    if i == 0 {
        rule_of("Rust", seq!["Cargo.toml", "Cargo.lock"], seq!["rs"], seq!["target"])
    } else if i == 1 {
        rule_of("Go", seq!["go.mod", "go.sum"], seq!["go"], seq!["vendor"])
    } else if i == 2 {
        rule_of("Python", seq!["requirements.txt", "setup.py", "pyproject.toml", "Pipfile"], seq!["py", "pyw"], seq!["venv", ".venv", "__pycache__"])
    } else if i == 3 {
        rule_of("Node", seq!["package.json", "package-lock.json", "yarn.lock", "pnpm-lock.yaml"], seq!["js", "mjs", "cjs"], seq!["node_modules"])
    } else if i == 4 {
        rule_of("Java", seq![], seq!["java"], seq![])
    } else if i == 5 {
        rule_of("Kotlin", seq![], seq!["kt", "kts"], seq![])
    } else if i == 6 {
        rule_of("Swift", seq!["Package.swift"], seq!["swift"], seq![])
    } else if i == 7 {
        rule_of("C", seq!["Makefile", "CMakeLists.txt"], seq!["c", "h"], seq![])
    } else if i == 8 {
        rule_of("C++", seq!["CMakeLists.txt"], seq!["cpp", "cxx", "cc", "hpp", "hxx"], seq![])
    } else if i == 9 {
        rule_of("Ruby", seq!["Gemfile", "Gemfile.lock", "Rakefile"], seq!["rb"], seq![])
    } else if i == 10 {
        rule_of("Dart", seq!["pubspec.yaml", "pubspec.lock"], seq!["dart"], seq![".dart_tool"])
    } else if i == 11 {
        rule_of("Elixir", seq!["mix.exs"], seq!["ex", "exs"], seq!["_build", "deps"])
    } else if i == 12 {
        rule_of("Scala", seq!["build.sbt"], seq!["scala", "sc"], seq![])
    } else if i == 13 {
        rule_of("Haskell", seq!["stack.yaml", "cabal.project"], seq!["hs", "lhs"], seq![".stack-work"])
    } else if i == 14 {
        rule_of("Lua", seq![], seq!["lua"], seq![])
    } else if i == 15 {
        rule_of("R", seq!["DESCRIPTION", ".Rproj"], seq!["r", "R", "rmd"], seq![])
    } else if i == 16 {
        rule_of("Julia", seq!["Project.toml", "Manifest.toml"], seq!["jl"], seq![])
    } else if i == 17 {
        rule_of("Nim", seq![], seq!["nim", "nims"], seq!["nimcache"])
    } else if i == 18 {
        rule_of("Zig", seq!["build.zig"], seq!["zig"], seq!["zig-cache"])
    } else if i == 19 {
        rule_of("OCaml", seq!["dune", "dune-project"], seq!["ml", "mli"], seq!["_build"])
    } else if i == 20 {
        rule_of("Maven", seq!["pom.xml"], seq![], seq![])
    } else if i == 21 {
        rule_of("Gradle", seq!["build.gradle", "build.gradle.kts", "settings.gradle"], seq![], seq![".gradle"])
    } else if i == 22 {
        rule_of("CMake", seq!["CMakeLists.txt"], seq!["cmake"], seq!["CMakeFiles"])
    } else if i == 23 {
        rule_of("Rails", seq!["config/routes.rb", "bin/rails"], seq![], seq!["app/controllers", "app/models"])
    } else if i == 24 {
        rule_of("Flutter", seq!["pubspec.yaml"], seq![], seq!["android", "ios", "lib"])
    } else if i == 25 {
        rule_of("Angular", seq!["angular.json"], seq![], seq![])
    } else if i == 26 {
        rule_of("Laravel", seq!["artisan"], seq![], seq!["app/Http", "resources/views"])
    } else if i == 27 {
        rule_of("Django", seq!["manage.py"], seq![], seq![])
    } else if i == 28 {
        rule_of("Unity", seq![], seq!["unity", "prefab", "asset"], seq!["Assets", "ProjectSettings"])
    } else if i == 29 {
        rule_of("UnrealEngine", seq![], seq!["uproject"], seq!["Content", "Source"])
    } else if i == 30 {
        rule_of("Godot", seq!["project.godot"], seq!["gd", "tscn"], seq![".godot"])
    } else if i == 31 {
        rule_of("Terraform", seq![], seq!["tf", "tfvars"], seq![".terraform"])
    } else if i == 32 {
        rule_of("Ansible", seq!["ansible.cfg", "playbook.yml"], seq![], seq!["roles", "group_vars"])
    } else if i == 33 {
        rule_of("VisualStudio", seq![], seq!["sln", "csproj", "vbproj"], seq![".vs"])
    } else {
        rule_of("JetBrains", seq![], seq![], seq![".idea"])
    }
}

/// Every rule, in catalog order. Names are the identifiers that template
/// sources expect, in their exact casing.
pub open spec fn rule_table() -> Seq<RuleView> {
    Seq::new(RULE_COUNT as nat, |i: int| rule_at(i))
}

fn owned(v: Vec<&str>) -> (r: Vec<String>)
    ensures
        texts(r@) == lit_texts(v@),
{
    let mut r: Vec<String> = Vec::new();
    let mut i: usize = 0;
    while i < v.len()
        invariant
            i <= v@.len(),
            r@.len() == i,
            forall|j: int| 0 <= j < i ==> r@[j]@ == v@[j]@,
        decreases v@.len() - i,
    {
        r.push(String::from_str(v[i]));
        i = i + 1;
    }
    assert(texts(r@) =~= lit_texts(v@));
    r
}

fn rule(name: &str, files: Vec<&str>, extensions: Vec<&str>, directories: Vec<&str>) -> (r: DetectionRule)
    ensures
        r@.name == name@,
        r@.files == lit_texts(files@),
        r@.extensions == lit_texts(extensions@),
        r@.directories == lit_texts(directories@),
{
    DetectionRule {
        name: String::from_str(name),
        files: owned(files),
        extensions: owned(extensions),
        directories: owned(directories),
    }
}

/// The rule at position `k` of the catalog.
fn rule_number(k: usize) -> (r: DetectionRule)
    requires
        k < RULE_COUNT,
    ensures
        r@ == rule_at(k as int),
{
    if k == 0 {
        let f: Vec<&str> = vec!["Cargo.toml", "Cargo.lock"];
        let e: Vec<&str> = vec!["rs"];
        let d: Vec<&str> = vec!["target"];
        assert(e@ == seq!["rs"]);
        assert(d@ == seq!["target"]);
        rule("Rust", f, e, d)
    } else if k == 1 {
        let f: Vec<&str> = vec!["go.mod", "go.sum"];
        let e: Vec<&str> = vec!["go"];
        let d: Vec<&str> = vec!["vendor"];
        assert(e@ == seq!["go"]);
        assert(d@ == seq!["vendor"]);
        rule("Go", f, e, d)
    } else if k == 2 {
        let f: Vec<&str> = vec!["requirements.txt", "setup.py", "pyproject.toml", "Pipfile"];
        let e: Vec<&str> = vec!["py", "pyw"];
        let d: Vec<&str> = vec!["venv", ".venv", "__pycache__"];
        rule("Python", f, e, d)
    } else if k == 3 {
        let f: Vec<&str> = vec!["package.json", "package-lock.json", "yarn.lock", "pnpm-lock.yaml"];
        let e: Vec<&str> = vec!["js", "mjs", "cjs"];
        let d: Vec<&str> = vec!["node_modules"];
        assert(d@ == seq!["node_modules"]);
        rule("Node", f, e, d)
    } else if k == 4 {
        let f: Vec<&str> = vec![];
        let e: Vec<&str> = vec!["java"];
        let d: Vec<&str> = vec![];
        assert(e@ == seq!["java"]);
        rule("Java", f, e, d)
    } else if k == 5 {
        let f: Vec<&str> = vec![];
        let e: Vec<&str> = vec!["kt", "kts"];
        let d: Vec<&str> = vec![];
        rule("Kotlin", f, e, d)
    } else if k == 6 {
        let f: Vec<&str> = vec!["Package.swift"];
        let e: Vec<&str> = vec!["swift"];
        let d: Vec<&str> = vec![];
        assert(f@ == seq!["Package.swift"]);
        assert(e@ == seq!["swift"]);
        rule("Swift", f, e, d)
    } else if k == 7 {
        let f: Vec<&str> = vec!["Makefile", "CMakeLists.txt"];
        let e: Vec<&str> = vec!["c", "h"];
        let d: Vec<&str> = vec![];
        rule("C", f, e, d)
    } else if k == 8 {
        let f: Vec<&str> = vec!["CMakeLists.txt"];
        let e: Vec<&str> = vec!["cpp", "cxx", "cc", "hpp", "hxx"];
        let d: Vec<&str> = vec![];
        assert(f@ == seq!["CMakeLists.txt"]);
        rule("C++", f, e, d)
    } else if k == 9 {
        let f: Vec<&str> = vec!["Gemfile", "Gemfile.lock", "Rakefile"];
        let e: Vec<&str> = vec!["rb"];
        let d: Vec<&str> = vec![];
        assert(e@ == seq!["rb"]);
        rule("Ruby", f, e, d)
    } else if k == 10 {
        let f: Vec<&str> = vec!["pubspec.yaml", "pubspec.lock"];
        let e: Vec<&str> = vec!["dart"];
        let d: Vec<&str> = vec![".dart_tool"];
        assert(e@ == seq!["dart"]);
        assert(d@ == seq![".dart_tool"]);
        rule("Dart", f, e, d)
    } else if k == 11 {
        let f: Vec<&str> = vec!["mix.exs"];
        let e: Vec<&str> = vec!["ex", "exs"];
        let d: Vec<&str> = vec!["_build", "deps"];
        assert(f@ == seq!["mix.exs"]);
        rule("Elixir", f, e, d)
    } else if k == 12 {
        let f: Vec<&str> = vec!["build.sbt"];
        let e: Vec<&str> = vec!["scala", "sc"];
        let d: Vec<&str> = vec![];
        assert(f@ == seq!["build.sbt"]);
        rule("Scala", f, e, d)
    } else if k == 13 {
        let f: Vec<&str> = vec!["stack.yaml", "cabal.project"];
        let e: Vec<&str> = vec!["hs", "lhs"];
        let d: Vec<&str> = vec![".stack-work"];
        assert(d@ == seq![".stack-work"]);
        rule("Haskell", f, e, d)
    } else if k == 14 {
        let f: Vec<&str> = vec![];
        let e: Vec<&str> = vec!["lua"];
        let d: Vec<&str> = vec![];
        assert(e@ == seq!["lua"]);
        rule("Lua", f, e, d)
    } else if k == 15 {
        let f: Vec<&str> = vec!["DESCRIPTION", ".Rproj"];
        let e: Vec<&str> = vec!["r", "R", "rmd"];
        let d: Vec<&str> = vec![];
        rule("R", f, e, d)
    } else if k == 16 {
        let f: Vec<&str> = vec!["Project.toml", "Manifest.toml"];
        let e: Vec<&str> = vec!["jl"];
        let d: Vec<&str> = vec![];
        assert(e@ == seq!["jl"]);
        rule("Julia", f, e, d)
    } else if k == 17 {
        let f: Vec<&str> = vec![];
        let e: Vec<&str> = vec!["nim", "nims"];
        let d: Vec<&str> = vec!["nimcache"];
        assert(d@ == seq!["nimcache"]);
        rule("Nim", f, e, d)
    } else if k == 18 {
        let f: Vec<&str> = vec!["build.zig"];
        let e: Vec<&str> = vec!["zig"];
        let d: Vec<&str> = vec!["zig-cache"];
        assert(f@ == seq!["build.zig"]);
        assert(e@ == seq!["zig"]);
        assert(d@ == seq!["zig-cache"]);
        rule("Zig", f, e, d)
    } else if k == 19 {
        let f: Vec<&str> = vec!["dune", "dune-project"];
        let e: Vec<&str> = vec!["ml", "mli"];
        let d: Vec<&str> = vec!["_build"];
        assert(d@ == seq!["_build"]);
        rule("OCaml", f, e, d)
    } else if k == 20 {
        let f: Vec<&str> = vec!["pom.xml"];
        let e: Vec<&str> = vec![];
        let d: Vec<&str> = vec![];
        assert(f@ == seq!["pom.xml"]);
        rule("Maven", f, e, d)
    } else if k == 21 {
        let f: Vec<&str> = vec!["build.gradle", "build.gradle.kts", "settings.gradle"];
        let e: Vec<&str> = vec![];
        let d: Vec<&str> = vec![".gradle"];
        assert(d@ == seq![".gradle"]);
        rule("Gradle", f, e, d)
    } else if k == 22 {
        let f: Vec<&str> = vec!["CMakeLists.txt"];
        let e: Vec<&str> = vec!["cmake"];
        let d: Vec<&str> = vec!["CMakeFiles"];
        assert(f@ == seq!["CMakeLists.txt"]);
        assert(e@ == seq!["cmake"]);
        assert(d@ == seq!["CMakeFiles"]);
        rule("CMake", f, e, d)
    } else if k == 23 {
        let f: Vec<&str> = vec!["config/routes.rb", "bin/rails"];
        let e: Vec<&str> = vec![];
        let d: Vec<&str> = vec!["app/controllers", "app/models"];
        rule("Rails", f, e, d)
    } else if k == 24 {
        let f: Vec<&str> = vec!["pubspec.yaml"];
        let e: Vec<&str> = vec![];
        let d: Vec<&str> = vec!["android", "ios", "lib"];
        assert(f@ == seq!["pubspec.yaml"]);
        rule("Flutter", f, e, d)
    } else if k == 25 {
        let f: Vec<&str> = vec!["angular.json"];
        let e: Vec<&str> = vec![];
        let d: Vec<&str> = vec![];
        assert(f@ == seq!["angular.json"]);
        rule("Angular", f, e, d)
    } else if k == 26 {
        let f: Vec<&str> = vec!["artisan"];
        let e: Vec<&str> = vec![];
        let d: Vec<&str> = vec!["app/Http", "resources/views"];
        assert(f@ == seq!["artisan"]);
        rule("Laravel", f, e, d)
    } else if k == 27 {
        let f: Vec<&str> = vec!["manage.py"];
        let e: Vec<&str> = vec![];
        let d: Vec<&str> = vec![];
        assert(f@ == seq!["manage.py"]);
        rule("Django", f, e, d)
    } else if k == 28 {
        let f: Vec<&str> = vec![];
        let e: Vec<&str> = vec!["unity", "prefab", "asset"];
        let d: Vec<&str> = vec!["Assets", "ProjectSettings"];
        rule("Unity", f, e, d)
    } else if k == 29 {
        let f: Vec<&str> = vec![];
        let e: Vec<&str> = vec!["uproject"];
        let d: Vec<&str> = vec!["Content", "Source"];
        assert(e@ == seq!["uproject"]);
        rule("UnrealEngine", f, e, d)
    } else if k == 30 {
        let f: Vec<&str> = vec!["project.godot"];
        let e: Vec<&str> = vec!["gd", "tscn"];
        let d: Vec<&str> = vec![".godot"];
        assert(f@ == seq!["project.godot"]);
        assert(d@ == seq![".godot"]);
        rule("Godot", f, e, d)
    } else if k == 31 {
        let f: Vec<&str> = vec![];
        let e: Vec<&str> = vec!["tf", "tfvars"];
        let d: Vec<&str> = vec![".terraform"];
        assert(d@ == seq![".terraform"]);
        rule("Terraform", f, e, d)
    } else if k == 32 {
        let f: Vec<&str> = vec!["ansible.cfg", "playbook.yml"];
        let e: Vec<&str> = vec![];
        let d: Vec<&str> = vec!["roles", "group_vars"];
        rule("Ansible", f, e, d)
    } else if k == 33 {
        let f: Vec<&str> = vec![];
        let e: Vec<&str> = vec!["sln", "csproj", "vbproj"];
        let d: Vec<&str> = vec![".vs"];
        assert(d@ == seq![".vs"]);
        rule("VisualStudio", f, e, d)
    } else {
        let f: Vec<&str> = vec![];
        let e: Vec<&str> = vec![];
        let d: Vec<&str> = vec![".idea"];
        assert(d@ == seq![".idea"]);
        rule("JetBrains", f, e, d)
    }
}

/// The detection rules, in catalog order.
pub fn detection_rules() -> (r: Vec<DetectionRule>)
    ensures
        r@.map_values(|x: DetectionRule| x@) == rule_table(),
{
    let mut v: Vec<DetectionRule> = Vec::new();
    let mut k: usize = 0;
    while k < RULE_COUNT
        invariant
            k <= RULE_COUNT,
            v@.len() == k,
            forall|j: int| 0 <= j < k ==> v@[j]@ == rule_at(j),
        decreases RULE_COUNT - k,
    {
        v.push(rule_number(k));
        k = k + 1;
    }
    assert(v@.map_values(|x: DetectionRule| x@) =~= rule_table());
    v
}

} // verus!
