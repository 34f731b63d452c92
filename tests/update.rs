use gitignore_gen::checksum::{compare_digests, expected_checksum, find_checksum_asset, verify_checksum};
use gitignore_gen::fetcher::template_url;
use gitignore_gen::update::{find_asset, is_current, parse_repo_url, release_url, Asset, Platform};

fn asset(name: &str) -> Asset {
    Asset { name: name.to_string(), browser_download_url: format!("https://example.com/{name}") }
}

#[test]
fn template_url_joins_names() {
    let technologies = vec!["Go".to_string(), "Node".to_string()];
    assert_eq!(template_url(&technologies), "https://www.toptal.com/developers/gitignore/api/Go,Node");
    assert_eq!(template_url(&vec![]), "https://www.toptal.com/developers/gitignore/api/");
}

#[test]
fn platform_detection() {
    let p = Platform::detect("linux", "x86_64").unwrap();
    assert_eq!(p.target_pattern, "unknown-linux-gnu");
    assert_eq!(p.arch, "x86_64");
    assert_eq!(Platform::detect("macos", "aarch64").unwrap().target_pattern, "apple-darwin");
    assert_eq!(Platform::detect("windows", "x86_64").unwrap().target_pattern, "pc-windows-msvc");
    assert_eq!(Platform::detect("freebsd", "x86_64").err().unwrap(), "Unsupported operating system");
    assert_eq!(Platform::detect("linux", "riscv64").err().unwrap(), "Unsupported architecture");
}

#[test]
fn platform_matching_ignores_case_and_checksums() {
    let p = Platform::detect("linux", "x86_64").unwrap();
    assert!(p.matches("tool-X86_64-Unknown-Linux-GNU.tar.gz"));
    assert!(!p.matches("tool-x86_64-unknown-linux-gnu.tar.gz.sha256"));
    assert!(!p.matches("tool-aarch64-unknown-linux-gnu"));
}

#[test]
fn repository_urls() {
    let ok = |u: &str| parse_repo_url(u).unwrap();
    assert_eq!(ok("https://github.com/owner/repo"), ("owner".to_string(), "repo".to_string()));
    assert_eq!(ok("https://github.com/owner/repo.git/"), ("owner".to_string(), "repo".to_string()));
    assert_eq!(ok("https://github.com/owner/repo.git.git//"), ("owner".to_string(), "repo".to_string()));
    assert_eq!(ok("owner/repo"), ("owner".to_string(), "repo".to_string()));
    assert_eq!(parse_repo_url("repo").err().unwrap(), "Invalid repository URL in Cargo.toml");
    assert!(parse_repo_url("").is_err());
}

#[test]
fn asset_selection() {
    let p = Platform::detect("linux", "x86_64").unwrap();
    let assets = vec![asset("t-aarch64-apple-darwin"), asset("t-x86_64-unknown-linux-gnu"), asset("SHA256SUMS")];
    assert_eq!(find_asset(&assets, &p).unwrap().name, "t-x86_64-unknown-linux-gnu");
    let none = vec![asset("a"), asset("b")];
    assert_eq!(
        find_asset(&none, &p).err().unwrap(),
        "No binary found for x86_64-unknown-linux-gnu. Available: a, b"
    );
}

#[test]
fn checksum_asset_selection() {
    let assets = vec![asset("tool"), asset("Tool.SHA256"), asset("checksums.txt")];
    assert_eq!(find_checksum_asset(&assets).unwrap().name, "Tool.SHA256");
    assert_eq!(
        find_checksum_asset(&vec![asset("tool")]).err().unwrap(),
        "No checksum file found in release. Update aborted for security."
    );
}

#[test]
fn checksum_lines() {
    let text = "abc  other\n\n  DEF\tmine extra\r\nghi mine\n";
    assert_eq!(expected_checksum(text, "mine"), Some("DEF".to_string()));
    assert_eq!(expected_checksum(text, "min"), None);
    assert_eq!(expected_checksum("lonely\n", "lonely"), None);
}

const ABC_SHA256: &str = "ba7816bf8f01cfea414140de5dae2223b00361a396177a9cb410ff61f20015ad";

#[test]
fn checksum_verification() {
    let binary = b"abc".to_vec();
    let good = format!("{}  tool\n", ABC_SHA256.to_uppercase()).into_bytes();
    assert_eq!(verify_checksum(&binary, "tool", good), Ok(()));
    let bad = "0000  tool\n".as_bytes().to_vec();
    assert_eq!(
        verify_checksum(&binary, "tool", bad),
        Err(format!("Checksum mismatch!\n  Expected: 0000\n  Actual:   {ABC_SHA256}"))
    );
    let missing = format!("{ABC_SHA256}  other\n").into_bytes();
    assert_eq!(
        verify_checksum(&binary, "tool", missing),
        Err("Checksum for 'tool' not found in checksum file".to_string())
    );
    assert_eq!(
        verify_checksum(&binary, "tool", vec![0xff, 0xfe]),
        Err("Checksum file contains invalid UTF-8: invalid utf-8 sequence of 1 bytes from index 0".to_string())
    );
}

#[test]
fn digest_comparison() {
    assert_eq!(compare_digests("AB", "ab", "ab", "ab"), Ok(()));
    assert!(compare_digests("ab", "ab", "cd", "cd").is_err());
}

#[test]
fn release_versions_and_urls() {
    assert!(is_current("v1.2.3", "1.2.3"));
    assert!(is_current("1.2.3", "1.2.3"));
    assert!(!is_current("v1.2.4", "1.2.3"));
    assert_eq!(release_url("o", "r"), "https://api.github.com/repos/o/r/releases/latest");
}
