//! Command extraction: find the first recognized video reference in a
//! plaintext message and return its 11-character identifier.
//!
//! A reference is an optional scheme (`https://` or `http://`), an optional
//! `www.`, then either `youtube.com/watch?v=` or `youtu.be/`, followed by
//! exactly 11 identifier characters (ASCII letters, digits, `-`, `_`).
//! The leftmost reference wins; only one identifier is taken per message.

use vstd::prelude::*;

verus! {

/// A character of the identifier alphabet: ASCII letters, digits, `-`, `_`.
pub open spec fn id_char(c: char) -> bool {
    (97 <= c as u32 && c as u32 <= 122)  // 'a'..'z'
    || (65 <= c as u32 && c as u32 <= 90)  // 'A'..'Z'
    || (48 <= c as u32 && c as u32 <= 57)  // '0'..'9'
    || c as u32 == 45  // '-'
    || c as u32 == 95  // '_'
}

/// The pattern `p` occurs in `s` starting at position `i`.
pub open spec fn starts_with_at(s: Seq<char>, i: int, p: Seq<char>) -> bool {
    0 <= i && i + p.len() <= s.len() && s.subrange(i, i + p.len() as int) == p
}

/// Position after an optional URL scheme at `i`.
pub open spec fn scheme_end(s: Seq<char>, i: int) -> int {
    if starts_with_at(s, i, "https://"@) {
        i + "https://"@.len()
    } else if starts_with_at(s, i, "http://"@) {
        i + "http://"@.len()
    } else {
        i
    }
}

/// Position after an optional `www.` at `j`.
pub open spec fn www_end(s: Seq<char>, j: int) -> int {
    if starts_with_at(s, j, "www."@) {
        j + "www."@.len()
    } else {
        j
    }
}

/// Position after one of the recognized host forms at `j`, if one is there.
pub open spec fn host_end(s: Seq<char>, j: int) -> Option<int> {
    if starts_with_at(s, j, "youtube.com/watch?v="@) {
        Some(j + "youtube.com/watch?v="@.len() as int)
    } else if starts_with_at(s, j, "youtu.be/"@) {
        Some(j + "youtu.be/"@.len() as int)
    } else {
        None
    }
}

/// The 11-character identifier starting at `k`, if the next 11 characters
/// are all of the identifier alphabet.
pub open spec fn id_at(s: Seq<char>, k: int) -> Option<Seq<char>> {
    if 0 <= k && k + 11 <= s.len() && (forall|t: int| k <= t < k + 11 ==> id_char(s[t])) {
        Some(s.subrange(k, k + 11))
    } else {
        None
    }
}

/// The identifier of a reference starting at position `i`, if one starts there.
pub open spec fn match_at(s: Seq<char>, i: int) -> Option<Seq<char>> {
    match host_end(s, www_end(s, scheme_end(s, i))) {
        Some(k) => id_at(s, k),
        None => None,
    }
}

/// The identifier of the leftmost reference at or after position `i`.
pub open spec fn extract_from(s: Seq<char>, i: int) -> Option<Seq<char>>
    decreases s.len() - i when 0 <= i <= s.len()
{
    if match_at(s, i) is Some {
        match_at(s, i)
    } else if i >= s.len() {
        None
    } else {
        extract_from(s, i + 1)
    }
}

/// The identifier of the leftmost reference in `s`, if any.
pub open spec fn extract_spec(s: Seq<char>) -> Option<Seq<char>> {
    extract_from(s, 0)
}

fn is_id_char(c: char) -> (r: bool)
    ensures
        r == id_char(c),
{
    let u = c as u32;
    (97 <= u && u <= 122) || (65 <= u && u <= 90) || (48 <= u && u <= 57) || u == 45 || u == 95
}

fn has_at(s: &str, i: usize, p: &str) -> (r: bool)
    requires
        i <= s@.len(),
    ensures
        r == starts_with_at(s@, i as int, p@),
{
    let sl = s.unicode_len();
    let pl = p.unicode_len();
    if pl > sl - i {
        return false;
    }
    let mut t: usize = 0;
    while t < pl
        invariant
            i + pl <= sl,
            sl == s@.len(),
            pl == p@.len(),
            t <= pl,
            forall|u: int| 0 <= u < t ==> s@[i + u] == p@[u],
        decreases pl - t,
    {
        if s.get_char(i + t) != p.get_char(t) {
            assert(!starts_with_at(s@, i as int, p@)) by {
                if starts_with_at(s@, i as int, p@) {
                    assert(s@.subrange(i as int, i + pl as int)[t as int] == s@[i + t]);
                }
            }
            return false;
        }
        t += 1;
    }
    assert(s@.subrange(i as int, i + pl as int) =~= p@);
    true
}

fn match_id_at(s: &str, k: usize) -> (r: Option<String>)
    requires
        k <= s@.len(),
    ensures
        match r {
            Some(id) => id_at(s@, k as int) == Some(id@),
            None => id_at(s@, k as int) is None,
        },
{
    let sl = s.unicode_len();
    if sl - k < 11 {
        return None;
    }
    let mut t: usize = 0;
    while t < 11
        invariant
            k + 11 <= sl,
            sl == s@.len(),
            t <= 11,
            forall|u: int| k <= u < k + t ==> id_char(s@[u]),
        decreases 11 - t,
    {
        if !is_id_char(s.get_char(k + t)) {
            return None;
        }
        t += 1;
    }
    let sub = s.substring_char(k, k + 11);
    Some(sub.to_owned())
}

fn match_at_exec(s: &str, i: usize) -> (r: Option<String>)
    requires
        i <= s@.len(),
    ensures
        match r {
            Some(id) => match_at(s@, i as int) == Some(id@),
            None => match_at(s@, i as int) is None,
        },
{
    let sl = s.unicode_len();
    let mut j = i;
    if has_at(s, j, "https://") {
        j += "https://".unicode_len();
    } else if has_at(s, j, "http://") {
        j += "http://".unicode_len();
    }
    assert(j == scheme_end(s@, i as int));
    if has_at(s, j, "www.") {
        j += "www.".unicode_len();
    }
    assert(j == www_end(s@, scheme_end(s@, i as int)));
    let k: usize;
    if has_at(s, j, "youtube.com/watch?v=") {
        k = j + "youtube.com/watch?v=".unicode_len();
    } else if has_at(s, j, "youtu.be/") {
        k = j + "youtu.be/".unicode_len();
    } else {
        return None;
    }
    match_id_at(s, k)
}

/// Return the identifier embedded in the leftmost recognized reference of
/// `s`, or nothing when `s` holds no recognized reference.
pub fn extract(s: &str) -> (r: Option<String>)
    ensures
        match r {
            Some(id) => extract_spec(s@) == Some(id@),
            None => extract_spec(s@) is None,
        },
{
    let sl = s.unicode_len();
    let mut i: usize = 0;
    loop
        invariant
            i <= sl,
            sl == s@.len(),
            extract_spec(s@) == extract_from(s@, i as int),
        decreases sl - i,
    {
        match match_at_exec(s, i) {
            Some(id) => {
                return Some(id);
            },
            None => {
                if i == sl {
                    return None;
                }
                i += 1;
            },
        }
    }
}

proof fn lemma_extract_from_skip(s: Seq<char>, a: int, b: int)
    requires
        0 <= a <= b <= s.len(),
        forall|j: int| a <= j < b ==> match_at(s, j) is None,
    ensures
        extract_from(s, a) == extract_from(s, b),
    decreases b - a,
{
    if a < b {
        lemma_extract_from_skip(s, a + 1, b);
    }
}

/// Law: when a message holds exactly one recognized reference, extraction
/// returns the identifier embedded in it.
pub proof fn lemma_single_match_extracted(s: Seq<char>, i: int, id: Seq<char>)
    requires
        0 <= i <= s.len(),
        match_at(s, i) == Some(id),
        forall|j: int| 0 <= j <= s.len() && j != i ==> match_at(s, j) is None,
    ensures
        extract_spec(s) == Some(id),
{
    lemma_extract_from_skip(s, 0, i);
}

/// Law: when a message holds no recognized reference, extraction returns
/// nothing.
pub proof fn lemma_no_match_extracts_nothing(s: Seq<char>)
    requires
        forall|j: int| 0 <= j <= s.len() ==> match_at(s, j) is None,
    ensures
        extract_spec(s) is None,
{
    lemma_extract_from_skip(s, 0, s.len() as int);
}

} // verus!
