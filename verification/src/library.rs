//! Track-list helpers: search filtering, current-track lookup, and the
//! audio-file allow-list.
//!
//! The file list itself is discovered and owned by the embedding
//! application; the rules for filtering and locating entries in it are
//! verified here.

use vstd::prelude::*;

verus! {

/// Unicode lowercasing as performed by `str::to_lowercase`. The result
/// depends on the characters alone.
pub uninterp spec fn lower_of(s: Seq<char>) -> Seq<char>;

/// What `str::trim` leaves of a string once leading and trailing
/// whitespace is removed.
pub uninterp spec fn trimmed_of(s: Seq<char>) -> Seq<char>;

/// `needle` occurs contiguously within `hay`.
pub open spec fn is_substring_of(needle: Seq<char>, hay: Seq<char>) -> bool {
    exists|i: int|
        0 <= i <= hay.len() - needle.len() && #[trigger] hay.subrange(i, i + needle.len())
            == needle
}

/// The ASCII-lowercase image of a character: letters `A` through `Z` map
/// to their lowercase counterparts, everything else is unchanged.
pub open spec fn spec_ascii_lower(c: char) -> char {
    if 'A' <= c <= 'Z' {
        ((c as u8) + 32) as char
    } else {
        c
    }
}

/// The two strings are equal once both are ASCII-lowercased.
pub open spec fn ascii_eq_ignore_case(a: Seq<char>, b: Seq<char>) -> bool {
    a.len() == b.len() && forall|i: int|
        0 <= i < a.len() ==> spec_ascii_lower(#[trigger] a[i]) == spec_ascii_lower(b[i])
}

/// Relies on `str::to_lowercase`: Unicode lowercasing, a function of the
/// characters alone.
#[verifier::external_body]
fn to_lower(s: &str) -> (r: String)
    ensures
        r@ == lower_of(s@),
        s@.len() == 0 ==> r@.len() == 0,
{
    s.to_lowercase()
}

/// Relies on `str::trim`: returns the input without its leading and
/// trailing whitespace.
#[verifier::external_body]
fn trim_str(s: &str) -> (r: &str)
    ensures
        r@ == trimmed_of(s@),
        r@.len() <= s@.len(),
{
    s.trim()
}

/// Relies on `str::contains`: substring containment.
#[verifier::external_body]
fn contains_sub(hay: &str, needle: &str) -> (r: bool)
    ensures
        r == is_substring_of(needle@, hay@),
{
    hay.contains(needle)
}

/// Relies on `str::eq_ignore_ascii_case`: equality up to ASCII case.
#[verifier::external_body]
fn eq_ignore_ascii(a: &str, b: &str) -> (r: bool)
    ensures
        r == ascii_eq_ignore_case(a@, b@),
{
    a.eq_ignore_ascii_case(b)
}

/// The search query matches entry `i`: the lowercased query occurs in the
/// lowercased name.
pub open spec fn name_matches(names: Seq<String>, query: Seq<char>, i: int) -> bool {
    is_substring_of(lower_of(query), lower_of(names[i]@))
}

/// The indices below `upto` whose names match the query, in ascending
/// order.
pub open spec fn spec_matching_indices(names: Seq<String>, query: Seq<char>, upto: int) -> Seq<usize>
    decreases upto,
{
    if upto <= 0 {
        Seq::empty()
    } else {
        let prefix = spec_matching_indices(names, query, upto - 1);
        if name_matches(names, query, upto - 1) {
            prefix.push((upto - 1) as usize)
        } else {
            prefix
        }
    }
}

/// The identity index sequence `0, 1, …, n-1`.
pub open spec fn spec_all_indices(n: nat) -> Seq<usize> {
    Seq::new(n, |i: int| i as usize)
}

/// Indices of the entries that match the search query, in ascending
/// order: a case-insensitive substring match of the query against each
/// name. A blank query (nothing but whitespace) keeps every entry.
pub fn compute_filtered_indices(names: &Vec<String>, query: &str) -> (r: Vec<usize>)
    ensures
        r@ == if trimmed_of(query@).len() == 0 {
            spec_all_indices(names@.len())
        } else {
            spec_matching_indices(names@, query@, names@.len() as int)
        },
{
    let blank: bool = trim_str(query).is_empty();
    let mut r: Vec<usize> = Vec::new();
    if blank {
        let mut i: usize = 0;
        while i < names.len()
            invariant
                i <= names@.len(),
                r@.len() == i,
                forall|j: int| 0 <= j < i ==> #[trigger] r@[j] == j as usize,
            decreases names@.len() - i,
        {
            r.push(i);
            i = i + 1;
        }
        proof {
            assert(r@ =~= spec_all_indices(names@.len()));
        }
    } else {
        let q_low: String = to_lower(query);
        let mut i: usize = 0;
        while i < names.len()
            invariant
                i <= names@.len(),
                q_low@ == lower_of(query@),
                r@ == spec_matching_indices(names@, query@, i as int),
            decreases names@.len() - i,
        {
            let n_low: String = to_lower(names[i].as_str());
            if contains_sub(n_low.as_str(), q_low.as_str()) {
                r.push(i);
            }
            i = i + 1;
        }
    }
    r
}

/// Some entry of `paths` reads `p`.
pub open spec fn spec_path_found(paths: Seq<String>, p: Seq<char>) -> bool {
    exists|i: int| 0 <= i < paths.len() && #[trigger] paths[i]@ == p
}

/// `r` is the first index of `paths` that reads `p`.
pub open spec fn spec_is_first_path_index(paths: Seq<String>, p: Seq<char>, r: Option<usize>) -> bool {
    &&& r matches Some(k)
    &&& 0 <= (r->Some_0 as int) < paths.len()
    &&& paths[r->Some_0 as int]@ == p
    &&& forall|i: int| 0 <= i < r->Some_0 as int ==> #[trigger] paths[i]@ != p
}

/// The index of the entry whose path is the currently open one,
/// preferred over the caller's selection. When no path is open, or the
/// open path is in the list no longer, the selection stands.
#[verifier::loop_isolation(false)]
pub fn current_index(paths: &Vec<String>, current: &Option<String>, selected: Option<usize>) -> (r:
    Option<usize>)
    ensures
        current is None ==> r == selected,
        current matches Some(p) ==> (if spec_path_found(paths@, p@) {
            spec_is_first_path_index(paths@, p@, r)
        } else {
            r == selected
        }),
{
    match current {
        None => selected,
        Some(p) => {
            let mut i: usize = 0;
            while i < paths.len()
                invariant
                    i <= paths@.len(),
                    forall|j: int| 0 <= j < i ==> #[trigger] paths@[j]@ != p@,
                decreases paths@.len() - i,
            {
                if paths[i] == *p {
                    return Some(i);
                }
                i = i + 1;
            }
            selected
        },
    }
}

/// The fixed allow-list of audio filename extensions, compared without
/// regard to ASCII case.
pub open spec fn spec_is_audio_extension(ext: Seq<char>) -> bool {
    ||| ascii_eq_ignore_case(ext, "mp3"@)
    ||| ascii_eq_ignore_case(ext, "flac"@)
    ||| ascii_eq_ignore_case(ext, "wav"@)
    ||| ascii_eq_ignore_case(ext, "ogg"@)
    ||| ascii_eq_ignore_case(ext, "opus"@)
    ||| ascii_eq_ignore_case(ext, "aac"@)
    ||| ascii_eq_ignore_case(ext, "m4a"@)
    ||| ascii_eq_ignore_case(ext, "alac"@)
    ||| ascii_eq_ignore_case(ext, "aiff"@)
    ||| ascii_eq_ignore_case(ext, "aif"@)
}

/// Whether a filename extension belongs to the audio allow-list,
/// regardless of ASCII case.
pub fn is_audio_extension(ext: &str) -> (r: bool)
    ensures
        r == spec_is_audio_extension(ext@),
{
    eq_ignore_ascii(ext, "mp3") || eq_ignore_ascii(ext, "flac") || eq_ignore_ascii(ext, "wav")
        || eq_ignore_ascii(ext, "ogg") || eq_ignore_ascii(ext, "opus") || eq_ignore_ascii(
        ext,
        "aac",
    ) || eq_ignore_ascii(ext, "m4a") || eq_ignore_ascii(ext, "alac") || eq_ignore_ascii(
        ext,
        "aiff",
    ) || eq_ignore_ascii(ext, "aif")
}

/// The folder line shown in the header: the folder path, or a fixed
/// placeholder when none is chosen.
pub fn folder_display(folder: &Option<String>) -> (r: String)
    ensures
        folder matches Some(p) ==> r@ == p@,
        folder is None ==> r@ == "No folder selected"@,
{
    match folder {
        Some(p) => p.clone(),
        None => String::from_str("No folder selected"),
    }
}

} // verus!
