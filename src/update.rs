//! Choosing a release asset for the running platform, and reading a
//! repository URL.
use vstd::prelude::*;
use crate::casefold::{lower_of, lowercase};
use crate::text::{contains_text, find_last, lemma_last_index_of, last_index_of, occurs_in, same_text};

verus! {

/// A downloadable file of a release.
pub struct Asset {
    pub name: String,
    pub browser_download_url: String,
}

/// A published release and its files.
pub struct Release {
    pub tag_name: String,
    pub assets: Vec<Asset>,
}

/// The platform a binary is built for, as asset names spell it.
pub struct Platform {
    /// Target pattern in asset names, such as `unknown-linux-gnu`.
    pub target_pattern: String,
    pub arch: String,
}

/// The target pattern for an operating system name as `std::env::consts::OS`
/// gives it.
pub open spec fn target_for_os(os: Seq<char>) -> Option<Seq<char>> {
    if os == "windows"@ {
        Some("pc-windows-msvc"@)
    } else if os == "macos"@ {
        Some("apple-darwin"@)
    } else if os == "linux"@ {
        Some("unknown-linux-gnu"@)
    } else {
        None
    }
}

/// The architectures that releases are built for.
pub open spec fn known_arch(arch: Seq<char>) -> bool {
    arch == "x86_64"@ || arch == "aarch64"@
}

/// A lowercased asset name is the binary for the platform: it names the
/// architecture and the target, and it is not a checksum file.
pub open spec fn fits_platform(target: Seq<char>, arch: Seq<char>, lower_name: Seq<char>) -> bool {
    occurs_in(arch, lower_name) && occurs_in(target, lower_name) && !occurs_in("sha256"@, lower_name)
}

impl Platform {
    /// The platform for an operating system and an architecture named as
    /// `std::env::consts::OS` and `std::env::consts::ARCH` name them.
    pub fn detect(os: &str, arch: &str) -> (r: Result<Platform, String>)
        ensures
            target_for_os(os@) is None ==> (r matches Err(e) && e@ == "Unsupported operating system"@),
            target_for_os(os@) is Some && !known_arch(arch@) ==> (r matches Err(e) && e@
                == "Unsupported architecture"@),
            target_for_os(os@) is Some && known_arch(arch@) ==> (r matches Ok(p) && Some(
                p.target_pattern@,
            ) == target_for_os(os@) && p.arch@ == arch@),
    {
        let target_pattern = if same_text(os, "windows") {
            String::from_str("pc-windows-msvc")
        } else if same_text(os, "macos") {
            String::from_str("apple-darwin")
        } else if same_text(os, "linux") {
            String::from_str("unknown-linux-gnu")
        } else {
            return Err(String::from_str("Unsupported operating system"));
        };
        if !(same_text(arch, "x86_64") || same_text(arch, "aarch64")) {
            return Err(String::from_str("Unsupported architecture"));
        }
        Ok(Platform { target_pattern, arch: String::from_str(arch) })
    }

    /// Whether an already lowercased asset name is the binary for this
    /// platform.
    pub fn matches_lowered(&self, lower_name: &str) -> (r: bool)
        ensures
            r == fits_platform(self.target_pattern@, self.arch@, lower_name@),
    {
        contains_text(lower_name, self.arch.as_str()) && contains_text(
            lower_name,
            self.target_pattern.as_str(),
        ) && !contains_text(lower_name, "sha256")
    }

    /// Whether an asset name, compared in lowercase, is the binary for this
    /// platform.
    pub fn matches(&self, asset_name: &str) -> (r: bool)
        ensures
            r == fits_platform(self.target_pattern@, self.arch@, lower_of(asset_name@)),
    {
        let lower = lowercase(asset_name);
        self.matches_lowered(lower.as_str())
    }
}

/// `s` without its trailing `/` characters.
pub open spec fn trim_slashes(s: Seq<char>) -> Seq<char>
    decreases s.len(),
{
    if s.len() > 0 && s.last() == '/' {
        trim_slashes(s.drop_last())
    } else {
        s
    }
}

/// `s` without its trailing repetitions of `.git`.
pub open spec fn trim_git(s: Seq<char>) -> Seq<char>
    decreases s.len(),
{
    if s.len() >= 4 && s.subrange(s.len() - 4, s.len() as int) == ".git"@ {
        trim_git(s.subrange(0, s.len() - 4))
    } else {
        s
    }
}

/// Owner and repository named by a repository URL: the last two
/// `/`-separated parts once trailing slashes and `.git` are removed; there
/// are two only when a `/` remains.
pub open spec fn repo_parts(url: Seq<char>) -> Option<(Seq<char>, Seq<char>)> {
    let t = trim_git(trim_slashes(url));
    let last = last_index_of(t, '/');
    if last < 0 {
        None
    } else {
        let head = t.subrange(0, last);
        let prev = last_index_of(head, '/');
        Some((head.subrange(prev + 1, last), t.subrange(last + 1, t.len() as int)))
    }
}

/// Reads owner and repository from a repository URL such as
/// `https://github.com/owner/repo`.
pub fn parse_repo_url(url: &str) -> (r: Result<(String, String), String>)
    ensures
        repo_parts(url@) is None ==> (r matches Err(e) && e@ == "Invalid repository URL in Cargo.toml"@),
        repo_parts(url@) matches Some(p) ==> (r matches Ok(q) && q.0@ == p.0 && q.1@ == p.1),
{
    let n = url.unicode_len();
    let mut end: usize = n;
    assert(url@.subrange(0, n as int) =~= url@);
    while end > 0 && url.get_char(end - 1) == '/'
        invariant
            n == url@.len(),
            end <= n,
            trim_slashes(url@) == trim_slashes(url@.subrange(0, end as int)),
        decreases end,
    {
        assert(url@.subrange(0, end as int).drop_last() =~= url@.subrange(0, end - 1));
        end = end - 1;
    }
    assert(trim_slashes(url@) == url@.subrange(0, end as int));
    let mut t = url.substring_char(0, end);
    loop
        invariant
            trim_git(trim_slashes(url@)) == trim_git(t@),
        ensures
            trim_git(trim_slashes(url@)) == t@,
        decreases t@.len(),
    {
        proof {
            reveal_strlit(".git");
        }
        let m = t.unicode_len();
        if m >= 4 && crate::text::ends_with_text(t, ".git") {
            assert(t@.subrange(m - 4, m as int) == ".git"@);
            t = t.substring_char(0, m - 4);
        } else {
            break;
        }
    }
    assert(trim_git(trim_slashes(url@)) == t@);
    let m = t.unicode_len();
    proof {
        lemma_last_index_of(t@, '/');
    }
    match find_last(t, '/') {
        None => Err(String::from_str("Invalid repository URL in Cargo.toml")),
        Some(last) => {
            let head = t.substring_char(0, last);
            proof {
                lemma_last_index_of(head@, '/');
            }
            let start = match find_last(head, '/') {
                None => 0,
                Some(p) => p + 1,
            };
            let owner = head.substring_char(start, last);
            let repo = t.substring_char(last + 1, m);
            Ok((String::from_str(owner), String::from_str(repo)))
        },
    }
}

/// Asset names joined with `, `.
pub open spec fn joined_names(a: Seq<Asset>) -> Seq<char>
    decreases a.len(),
{
    if a.len() == 0 {
        Seq::empty()
    } else if a.len() == 1 {
        a[0].name@
    } else {
        joined_names(a.drop_last()) + ", "@ + a.last().name@
    }
}

/// The asset at `k` is the binary for the platform.
pub open spec fn asset_fits(p: Platform, assets: Seq<Asset>, k: int) -> bool {
    fits_platform(p.target_pattern@, p.arch@, lower_of(assets[k].name@))
}

/// The message when no asset is the binary for the platform.
pub open spec fn no_binary_message(p: Platform, assets: Seq<Asset>) -> Seq<char> {
    "No binary found for "@ + p.arch@ + "-"@ + p.target_pattern@ + ". Available: "@ + joined_names(assets)
}

/// The first asset that is the binary for the platform.
pub fn find_asset<'a>(assets: &'a Vec<Asset>, platform: &Platform) -> (r: Result<&'a Asset, String>)
    ensures
        r matches Ok(a) ==> exists|k: int|
            0 <= k < assets@.len() && *a == assets@[k] && asset_fits(*platform, assets@, k) && forall|j: int|
                0 <= j < k ==> !asset_fits(*platform, assets@, j),
        r is Err <==> forall|k: int| 0 <= k < assets@.len() ==> !asset_fits(*platform, assets@, k),
        r matches Err(e) ==> e@ == no_binary_message(*platform, assets@),
{
    let mut i: usize = 0;
    while i < assets.len()
        invariant
            i <= assets@.len(),
            forall|j: int| 0 <= j < i ==> !asset_fits(*platform, assets@, j),
        decreases assets@.len() - i,
    {
        if platform.matches(assets[i].name.as_str()) {
            return Ok(&assets[i]);
        }
        i = i + 1;
    }
    let mut list = String::new();
    let mut k: usize = 0;
    while k < assets.len()
        invariant
            k <= assets@.len(),
            list@ == joined_names(assets@.subrange(0, k as int)),
        decreases assets@.len() - k,
    {
        assert(assets@.subrange(0, k + 1).drop_last() =~= assets@.subrange(0, k as int));
        if k > 0 {
            list.append(", ");
        }
        list.append(assets[k].name.as_str());
        k = k + 1;
    }
    assert(assets@.subrange(0, k as int) =~= assets@);
    let mut msg = String::from_str("No binary found for ");
    msg.append(platform.arch.as_str());
    msg.append("-");
    msg.append(platform.target_pattern.as_str());
    msg.append(". Available: ");
    msg.append(list.as_str());
    Err(msg)
}

/// `s` without its leading `v` characters.
pub open spec fn trim_v(s: Seq<char>) -> Seq<char>
    decreases s.len(),
{
    if s.len() > 0 && s[0] == 'v' {
        trim_v(s.drop_first())
    } else {
        s
    }
}

/// Whether a release tag (with or without leading `v`) names the version
/// that is running.
pub fn is_current(tag_name: &str, version: &str) -> (r: bool)
    ensures
        r == (trim_v(tag_name@) == version@),
{
    let n = tag_name.unicode_len();
    let mut i: usize = 0;
    assert(tag_name@.subrange(0, n as int) =~= tag_name@);
    while i < n && tag_name.get_char(i) == 'v'
        invariant
            i <= n,
            n == tag_name@.len(),
            trim_v(tag_name@) == trim_v(tag_name@.subrange(i as int, n as int)),
        decreases n - i,
    {
        assert(tag_name@.subrange(i as int, n as int).drop_first() =~= tag_name@.subrange(i + 1, n as int));
        i = i + 1;
    }
    same_text(tag_name.substring_char(i, n), version)
}

/// The address of the latest release of a repository on the GitHub API.
pub fn release_url(owner: &str, repo: &str) -> (r: String)
    ensures
        r@ == "https://api.github.com/repos/"@ + owner@ + "/"@ + repo@ + "/releases/latest"@,
{
    let mut url = String::from_str("https://api.github.com/repos/");
    url.append(owner);
    url.append("/");
    url.append(repo);
    url.append("/releases/latest");
    url
}

} // verus!
