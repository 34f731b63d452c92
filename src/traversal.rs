//! Which directories a walk descends into, and which it prunes while
//! recording the technology that the directory's name implies.
use vstd::prelude::*;
use crate::casefold::{lower_of, lowercase};
use crate::text::same_text;

verus! {

/// One entry met by a walk: its base name, its path relative to the scan
/// root with `/` as separator, whether it is a directory, its depth below
/// the root (the root itself is at depth 0), and, for a directory, whether a
/// regular file named `.git` sits directly inside it.
pub struct Entry {
    pub name: String,
    pub rel_path: String,
    pub is_dir: bool,
    pub depth: usize,
    pub has_git_file: bool,
}

pub struct EntryView {
    pub name: Seq<char>,
    pub rel_path: Seq<char>,
    pub is_dir: bool,
    pub depth: nat,
    pub has_git_file: bool,
}

impl View for Entry {
    type V = EntryView;

    open spec fn view(&self) -> EntryView {
        EntryView {
            name: self.name@,
            rel_path: self.rel_path@,
            is_dir: self.is_dir,
            depth: self.depth as nat,
            has_git_file: self.has_git_file,
        }
    }
}

/// What a walk does with a directory.
pub enum Decision {
    /// Visit the directory and walk its contents.
    Descend,
    /// Record the technology, and neither visit nor walk the directory.
    PruneWithSignal(String),
    /// Neither visit nor walk the directory.
    PruneSilently,
}

/// The technology implied by a build or dependency output directory, keyed
/// by the lowercased directory name.
pub open spec fn build_signal(lower: Seq<char>) -> Option<Seq<char>> {
    if lower == "target"@ {
        Some("Rust"@)
    } else if lower == "node_modules"@ {
        Some("Node"@)
    } else if lower == "__pycache__"@ {
        Some("Python"@)
    } else if lower == "_build"@ || lower == "deps"@ {
        Some("Elixir"@)
    } else {
        None
    }
}

/// Build outputs that imply no technology in particular, keyed by the
/// lowercased directory name.
pub open spec fn is_plain_output(lower: Seq<char>) -> bool {
    lower == "build"@ || lower == "dist"@ || lower == "out"@
}

/// A directory below the root whose name starts with `.`.
pub open spec fn is_hidden(e: EntryView) -> bool {
    e.depth > 0 && e.name.len() > 0 && e.name[0] == '.'
}

/// A directory below the root that is the top of another repository.
pub open spec fn is_nested_repo(e: EntryView) -> bool {
    e.depth > 0 && e.has_git_file
}

/// The decision for one entry whose name, lowercased, is `lower`. Files are
/// always visited; hidden directories and nested repositories are pruned
/// before any signal is read, so that another project's outputs are never
/// taken for this one's.
pub open spec fn decision_with(e: EntryView, lower: Seq<char>) -> Option<Option<Seq<char>>> {
    if !e.is_dir {
        None
    } else if is_hidden(e) || is_nested_repo(e) {
        Some(None)
    } else if build_signal(lower) is Some {
        Some(build_signal(lower))
    } else if is_plain_output(lower) {
        Some(None)
    } else {
        None
    }
}

/// The walk visits the entry and, for a directory, its contents.
pub open spec fn descends_with(e: EntryView, lower: Seq<char>) -> bool {
    decision_with(e, lower) is None
}

/// The technology that pruning the entry records, if any.
pub open spec fn signal_with(e: EntryView, lower: Seq<char>) -> Option<Seq<char>> {
    match decision_with(e, lower) {
        Some(t) => t,
        None => None,
    }
}

/// [`descends_with`] for the entry's name as `str::to_lowercase` lowers it.
pub open spec fn descends(e: EntryView) -> bool {
    descends_with(e, lower_of(e.name))
}

/// [`signal_with`] for the entry's name as `str::to_lowercase` lowers it.
pub open spec fn signal_of(e: EntryView) -> Option<Seq<char>> {
    signal_with(e, lower_of(e.name))
}

impl Decision {
    pub open spec fn descends_spec(&self) -> bool {
        self is Descend
    }

    pub open spec fn signal_spec(&self) -> Option<Seq<char>> {
        match self {
            Decision::PruneWithSignal(t) => Some(t@),
            _ => None,
        }
    }
}

/// The build-output signal for a lowercased directory name.
pub fn build_dir_tech(lower: &str) -> (r: Option<String>)
    ensures
        r matches Some(t) ==> build_signal(lower@) == Some(t@),
        r is None ==> build_signal(lower@) is None,
{
    if same_text(lower, "target") {
        Some(String::from_str("Rust"))
    } else if same_text(lower, "node_modules") {
        Some(String::from_str("Node"))
    } else if same_text(lower, "__pycache__") {
        Some(String::from_str("Python"))
    } else if same_text(lower, "_build") || same_text(lower, "deps") {
        Some(String::from_str("Elixir"))
    } else {
        None
    }
}

/// Whether a lowercased directory name is a build output that implies no
/// technology.
pub fn is_generic_output(lower: &str) -> (r: bool)
    ensures
        r == is_plain_output(lower@),
{
    same_text(lower, "build") || same_text(lower, "dist") || same_text(lower, "out")
}

/// Decides whether the walk descends into an entry whose name, lowercased,
/// is `lower`, and which technology a pruned directory records.
pub fn decide(entry: &Entry, lower: &str) -> (r: Decision)
    ensures
        r.descends_spec() == descends_with(entry@, lower@),
        r.signal_spec() == signal_with(entry@, lower@),
{
    if !entry.is_dir {
        return Decision::Descend;
    }
    let starts_dot = entry.name.as_str().unicode_len() > 0 && entry.name.as_str().get_char(0) == '.';
    if (starts_dot && entry.depth > 0) || (entry.has_git_file && entry.depth > 0) {
        return Decision::PruneSilently;
    }
    match build_dir_tech(lower) {
        Some(t) => Decision::PruneWithSignal(t),
        None => {
            if is_generic_output(lower) {
                Decision::PruneSilently
            } else {
                Decision::Descend
            }
        },
    }
}

/// Decides whether the walk descends into an entry, and which technology a
/// pruned directory records.
pub fn should_visit(entry: &Entry) -> (r: Decision)
    ensures
        r.descends_spec() == descends(entry@),
        r.signal_spec() == signal_of(entry@),
{
    if !entry.is_dir {
        return Decision::Descend;
    }
    let lower = lowercase(entry.name.as_str());
    decide(entry, lower.as_str())
}

} // verus!
