//! Technology detection for a project directory: a catalog of detection
//! rules, a matcher, the policy that decides which directories a walk enters
//! and which it prunes as build outputs, and the aggregation of a walk into a
//! sorted set of technology names. Beside it, the logic of self-update:
//! choosing a release asset and checking it against its checksum file.
use vstd::prelude::*;

pub mod analyzer;
pub mod casefold;
pub mod catalog;
pub mod checksum;
pub mod detected;
pub mod fetcher;
pub mod laws;
pub mod order;
pub mod rules;
pub mod text;
pub mod traversal;
pub mod update;

verus! {

/// Deepest level below the scan root that a walk looks at.
pub const MAX_DEPTH: usize = 3;

} // verus!
