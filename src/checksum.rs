//! Checking a downloaded binary against the release's checksum file.
use vstd::prelude::*;
use vstd::utf8::{decode_utf8, valid_utf8};
use sha2::Digest;
use crate::casefold::{lower_of, lowercase};
use crate::text::{is_suffix, same_text, ends_with_text};
use crate::update::Asset;

verus! {

/// A lowercased asset name names a checksum file.
pub open spec fn is_checksum_name(lower: Seq<char>) -> bool {
    lower == "sha256sums"@ || lower == "checksums.txt"@ || lower == "checksums.sha256"@
        || is_suffix(".sha256"@, lower) || is_suffix(".sha256sum"@, lower)
}

/// Whether an already lowercased asset name names a checksum file.
pub fn checksum_name(lower: &str) -> (r: bool)
    ensures
        r == is_checksum_name(lower@),
{
    same_text(lower, "sha256sums") || same_text(lower, "checksums.txt") || same_text(
        lower,
        "checksums.sha256",
    ) || ends_with_text(lower, ".sha256") || ends_with_text(lower, ".sha256sum")
}

/// The first asset of a release that is a checksum file; a release without
/// one is refused.
pub fn find_checksum_asset<'a>(assets: &'a Vec<Asset>) -> (r: Result<&'a Asset, String>)
    ensures
        r matches Ok(a) ==> exists|k: int|
            0 <= k < assets@.len() && *a == assets@[k] && is_checksum_name(lower_of(assets@[k].name@))
                && forall|j: int| 0 <= j < k ==> !is_checksum_name(lower_of(assets@[j].name@)),
        r is Err <==> forall|k: int| 0 <= k < assets@.len() ==> !is_checksum_name(lower_of(assets@[k].name@)),
        r matches Err(e) ==> e@ == "No checksum file found in release. Update aborted for security."@,
{
    let mut i: usize = 0;
    while i < assets.len()
        invariant
            i <= assets@.len(),
            forall|j: int| 0 <= j < i ==> !is_checksum_name(lower_of(assets@[j].name@)),
        decreases assets@.len() - i,
    {
        let lower = lowercase(assets[i].name.as_str());
        if checksum_name(lower.as_str()) {
            return Ok(&assets[i]);
        }
        i = i + 1;
    }
    Err(String::from_str("No checksum file found in release. Update aborted for security."))
}

/// The characters that `char::is_whitespace` accepts: Unicode White_Space.
pub open spec fn is_white(c: char) -> bool {
    let v = c as int;
    v == 0x20 || (0x09 <= v <= 0x0d) || v == 0x85 || v == 0xa0 || v == 0x1680 || (0x2000 <= v <= 0x200a)
        || v == 0x2028 || v == 0x2029 || v == 0x202f || v == 0x205f || v == 0x3000
}

pub fn white(c: char) -> (r: bool)
    ensures
        r == is_white(c),
{
    let v = c as u32;
    v == 0x20 || (0x09 <= v && v <= 0x0d) || v == 0x85 || v == 0xa0 || v == 0x1680 || (0x2000 <= v
        && v <= 0x200a) || v == 0x2028 || v == 0x2029 || v == 0x202f || v == 0x205f || v == 0x3000
}

/// The first position from `i` on, before `end`, that holds a character
/// that is (`white`) or is not (`!white`) whitespace; `end` if none does.
pub open spec fn scan_to(s: Seq<char>, i: int, end: int, white: bool) -> int
    decreases end - i,
{
    if i >= end {
        end
    } else if is_white(s[i]) == white {
        i
    } else {
        scan_to(s, i + 1, end, white)
    }
}

/// The first two whitespace-separated words of the line `s[i..end]`.
pub open spec fn first_two_words(s: Seq<char>, i: int, end: int) -> Option<(Seq<char>, Seq<char>)> {
    let a = scan_to(s, i, end, false);
    let b = scan_to(s, a, end, true);
    let c = scan_to(s, b, end, false);
    let d = scan_to(s, c, end, true);
    if a == end || c == end {
        None
    } else {
        Some((s.subrange(a, b), s.subrange(c, d)))
    }
}

/// The end of the line that starts at `i`: the next `\n`, or the end of `s`.
pub open spec fn line_end(s: Seq<char>, i: int) -> int
    decreases s.len() - i,
{
    if i >= s.len() {
        s.len() as int
    } else if s[i] == '\n' {
        i
    } else {
        line_end(s, i + 1)
    }
}

/// The checksum listed for `name` in the lines of `s` from `i` on: the
/// first word of the first line whose second word is exactly `name`.
pub open spec fn listed_checksum(s: Seq<char>, i: int, name: Seq<char>) -> Option<Seq<char>>
    decreases s.len() - i,
{
    if i < 0 || i >= s.len() {
        None
    } else {
        let e = line_end(s, i);
        match first_two_words(s, i, e) {
            Some((sum, file)) if file == name => Some(sum),
            _ => if e >= s.len() || e < i {
                None
            } else {
                listed_checksum(s, e + 1, name)
            },
        }
    }
}

proof fn lemma_scan_to_bounds(s: Seq<char>, i: int, end: int, white: bool)
    requires
        i <= end,
    ensures
        i <= scan_to(s, i, end, white) <= end,
    decreases end - i,
{
    if i < end && is_white(s[i]) != white {
        lemma_scan_to_bounds(s, i + 1, end, white);
    }
}

proof fn lemma_line_end_bounds(s: Seq<char>, i: int)
    requires
        0 <= i <= s.len(),
    ensures
        i <= line_end(s, i) <= s.len(),
    decreases s.len() - i,
{
    if i < s.len() && s[i] != '\n' {
        lemma_line_end_bounds(s, i + 1);
    }
}

fn scan(s: &str, i: usize, end: usize, want_white: bool) -> (r: usize)
    requires
        i <= end <= s@.len(),
    ensures
        r == scan_to(s@, i as int, end as int, want_white),
{
    let mut k = i;
    while k < end && white(s.get_char(k)) != want_white
        invariant
            i <= k <= end,
            end <= s@.len(),
            scan_to(s@, i as int, end as int, want_white) == scan_to(s@, k as int, end as int, want_white),
        decreases end - k,
    {
        k = k + 1;
    }
    k
}

/// The checksum that a checksum file lists for an asset: the first word of
/// the first line (lines end at `\n`) whose second word is exactly the
/// asset's name.
pub fn expected_checksum(text: &str, asset_name: &str) -> (r: Option<String>)
    ensures
        r matches Some(c) ==> listed_checksum(text@, 0, asset_name@) == Some(c@),
        r is None ==> listed_checksum(text@, 0, asset_name@) is None,
{
    let n = text.unicode_len();
    let mut i: usize = 0;
    while i < n
        invariant
            n == text@.len(),
            i <= n,
            listed_checksum(text@, 0, asset_name@) == listed_checksum(text@, i as int, asset_name@),
        decreases n - i,
    {
        let mut e = i;
        while e < n && text.get_char(e) != '\n'
            invariant
                i <= e <= n,
                n == text@.len(),
                line_end(text@, i as int) == line_end(text@, e as int),
            decreases n - e,
        {
            e = e + 1;
        }
        proof {
            lemma_line_end_bounds(text@, i as int);
            lemma_scan_to_bounds(text@, i as int, e as int, false);
        }
        let a = scan(text, i, e, false);
        proof { lemma_scan_to_bounds(text@, a as int, e as int, true); }
        let b = scan(text, a, e, true);
        proof { lemma_scan_to_bounds(text@, b as int, e as int, false); }
        let c = scan(text, b, e, false);
        proof { lemma_scan_to_bounds(text@, c as int, e as int, true); }
        let d = scan(text, c, e, true);
        if a < e && c < e {
            let file = text.substring_char(c, d);
            if same_text(file, asset_name) {
                return Some(String::from_str(text.substring_char(a, b)));
            }
        }
        if e >= n {
            return None;
        }
        i = e + 1;
    }
    None
}

/// The lowercase hexadecimal SHA-256 digest of a byte sequence.
pub uninterp spec fn sha256_hex_of(b: Seq<u8>) -> Seq<char>;

/// Relies on `sha2::Sha256`: the digest of the bytes, written by `{:x}` as
/// lowercase hexadecimal; it depends on the bytes alone.
#[verifier::external_body]
fn sha256_hex(b: &Vec<u8>) -> (r: String)
    ensures
        r@ == sha256_hex_of(b@),
{
    let mut hasher = sha2::Sha256::new();
    hasher.update(b.as_slice());
    format!("{:x}", hasher.finalize())
}

/// The text of the error that `String::from_utf8` reports for bytes that
/// are not UTF-8.
pub uninterp spec fn utf8_error_of(b: Seq<u8>) -> Seq<char>;

/// Relies on `String::from_utf8`: it accepts exactly the valid UTF-8 byte
/// sequences, and the string holds the characters they encode; otherwise its
/// error, written by `Display`, depends on the bytes alone.
#[verifier::external_body]
fn utf8_text(b: Vec<u8>) -> (r: Result<String, String>)
    ensures
        r is Ok <==> valid_utf8(b@),
        r matches Ok(s) ==> s@ == decode_utf8(b@),
        r matches Err(e) ==> e@ == utf8_error_of(b@),
{
    String::from_utf8(b).map_err(|e| e.to_string())
}

/// The message for a digest that differs from the listed one.
pub open spec fn mismatch_message(expected: Seq<char>, actual: Seq<char>) -> Seq<char> {
    "Checksum mismatch!\n  Expected: "@ + expected + "\n  Actual:   "@ + actual
}

/// Compares a computed digest with the listed one, both given with their
/// lowercase forms; case is ignored.
pub fn compare_digests(actual: &str, actual_lower: &str, expected: &str, expected_lower: &str) -> (r: Result<(), String>)
    ensures
        r is Ok <==> actual_lower@ == expected_lower@,
        r matches Err(e) ==> e@ == mismatch_message(expected@, actual@),
{
    if same_text(actual_lower, expected_lower) {
        Ok(())
    } else {
        let mut msg = String::from_str("Checksum mismatch!\n  Expected: ");
        msg.append(expected);
        msg.append("\n  Actual:   ");
        msg.append(actual);
        Err(msg)
    }
}

/// Checks a binary against the checksum file downloaded with it: the file
/// must be UTF-8, must list the asset, and the listed SHA-256 digest must
/// equal the binary's, ignoring case.
pub fn verify_checksum(binary: &Vec<u8>, asset_name: &str, checksum_file: Vec<u8>) -> (r: Result<(), String>)
    ensures
        !valid_utf8(checksum_file@) ==> (r matches Err(e) && e@ == "Checksum file contains invalid UTF-8: "@
            + utf8_error_of(checksum_file@)),
        valid_utf8(checksum_file@) && listed_checksum(decode_utf8(checksum_file@), 0, asset_name@) is None
            ==> (r matches Err(e) && e@ == "Checksum for '"@ + asset_name@ + "' not found in checksum file"@),
        valid_utf8(checksum_file@) && listed_checksum(decode_utf8(checksum_file@), 0, asset_name@) is Some
            ==> ((r is Ok <==> lower_of(sha256_hex_of(binary@)) == lower_of(
            listed_checksum(decode_utf8(checksum_file@), 0, asset_name@)->0,
        )) && (r is Err ==> r->Err_0@ == mismatch_message(
            listed_checksum(decode_utf8(checksum_file@), 0, asset_name@)->0,
            sha256_hex_of(binary@),
        ))),
{
    let text = match utf8_text(checksum_file) {
        Ok(t) => t,
        Err(e) => {
            let mut msg = String::from_str("Checksum file contains invalid UTF-8: ");
            msg.append(e.as_str());
            return Err(msg);
        },
    };
    let expected = match expected_checksum(text.as_str(), asset_name) {
        Some(c) => c,
        None => {
            let mut msg = String::from_str("Checksum for '");
            msg.append(asset_name);
            msg.append("' not found in checksum file");
            return Err(msg);
        },
    };
    let actual = sha256_hex(binary);
    let actual_lower = lowercase(actual.as_str());
    let expected_lower = lowercase(expected.as_str());
    compare_digests(actual.as_str(), actual_lower.as_str(), expected.as_str(), expected_lower.as_str())
}

} // verus!
