//! Verified text utilities: substring search, the exclusion rule on derived
//! filenames, the directory-traversal guard on archive entry names, and the
//! fixed destination paths of the pipeline.

use vstd::prelude::*;

verus! {

broadcast use vstd::string::group_string_axioms;

/// The needle `n` occurs in `h` starting at position `i`.
pub open spec fn occurs_at(h: Seq<char>, n: Seq<char>, i: int) -> bool {
    0 <= i && i + n.len() <= h.len() && forall|k: int| 0 <= k < n.len() ==> h[i + k] == n[k]
}

/// The needle `n` occurs somewhere in `h`.
pub open spec fn occurs_in(h: Seq<char>, n: Seq<char>) -> bool {
    exists|i: int| occurs_at(h, n, i)
}

/// Substring search over characters.
pub fn contains_sub(h: &str, n: &str) -> (r: bool)
    ensures
        r == occurs_in(h@, n@),
{
    let hl = h.unicode_len();
    let nl = n.unicode_len();
    if nl > hl {
        return false;
    }
    let mut i: usize = 0;
    while i <= hl - nl
        invariant
            nl <= hl,
            hl == h@.len(),
            nl == n@.len(),
            i <= hl - nl + 1,
            forall|j: int| 0 <= j < i ==> !occurs_at(h@, n@, j),
        decreases hl - nl + 1 - i,
    {
        let mut k: usize = 0;
        let mut mismatch = false;
        while k < nl && !mismatch
            invariant
                nl <= hl,
                hl == h@.len(),
                nl == n@.len(),
                i <= hl - nl,
                k <= nl,
                !mismatch ==> forall|m: int| 0 <= m < k ==> h@[i + m] == n@[m],
                mismatch ==> !occurs_at(h@, n@, i as int),
            decreases nl - k + (if mismatch { 0int } else { 1int }),
        {
            if h.get_char(i + k) != n.get_char(k) {
                assert(h@[i + k] != n@[k as int]);
                mismatch = true;
            } else {
                k = k + 1;
            }
        }
        if !mismatch {
            assert(occurs_at(h@, n@, i as int));
            return true;
        }
        i = i + 1;
    }
    assert forall|j: int| true implies !occurs_at(h@, n@, j) by {
        if occurs_at(h@, n@, j) {
            assert(0 <= j && j <= hl - nl);
        }
    }
    false
}

/// A derived filename is excluded from resolution when it contains this
/// fragment; the upstream distribution carries one list that must never be
/// fetched.
pub open spec fn spec_excluded(p: Seq<char>) -> bool {
    occurs_in(p, "Moeb"@)
}

/// Whether a derived filename falls under the exclusion rule.
pub fn is_excluded(p: &str) -> (r: bool)
    ensures
        r == spec_excluded(p@),
{
    contains_sub(p, "Moeb")
}

/// A `..` path component begins at position `i` of `s`: two dots preceded
/// by nothing or a separator and followed by nothing or a separator.
pub open spec fn dotdot_component_at(s: Seq<char>, i: int) -> bool {
    &&& 0 <= i && i + 2 <= s.len()
    &&& s[i] == '.' && s[i + 1] == '.'
    &&& (i == 0 || s[i - 1] == '/')
    &&& (i + 2 == s.len() || s[i + 2] == '/')
}

/// An archive entry name is safe to extract: non-empty, relative, without
/// any `..` path component, and free of backslashes — a separator on some
/// platforms, so a name carrying one is rejected rather than
/// reinterpreted. The written file then cannot escape the extraction
/// directory.
pub open spec fn spec_safe_entry_name(s: Seq<char>) -> bool {
    &&& s.len() > 0
    &&& s[0] != '/'
    &&& forall|i: int| 0 <= i < s.len() ==> s[i] != '\\'
    &&& !(exists|i: int| dotdot_component_at(s, i))
}

/// The directory-traversal guard on one archive entry name.
pub fn is_safe_entry_name(s: &str) -> (r: bool)
    ensures
        r == spec_safe_entry_name(s@),
{
    let len = s.unicode_len();
    if len == 0 {
        return false;
    }
    if s.get_char(0) == '/' {
        return false;
    }
    let mut i: usize = 0;
    while i < len
        invariant
            len == s@.len(),
            i <= len,
            forall|j: int| 0 <= j < i ==> s@[j] != '\\',
            forall|j: int| 0 <= j < i ==> !(#[trigger] dotdot_component_at(s@, j)),
        decreases len - i,
    {
        let c = s.get_char(i);
        if c == '\\' {
            return false;
        }
        if c == '.' && i + 1 < len {
            if s.get_char(i + 1) == '.' {
                let at_seg_start = i == 0 || s.get_char(i - 1) == '/';
                let at_seg_end = i + 2 == len || s.get_char(i + 2) == '/';
                if at_seg_start && at_seg_end {
                    assert(dotdot_component_at(s@, i as int));
                    return false;
                }
            }
        }
        assert(!dotdot_component_at(s@, i as int));
        i = i + 1;
    }
    true
}

/// The destination path of a resolved list: `lists/<title>.json`.
pub open spec fn spec_list_path(title: Seq<char>) -> Seq<char> {
    "lists/"@ + title + ".json"@
}

/// Builds the destination path of a resolved list from its title.
pub fn derive_list_path(title: &str) -> (r: String)
    ensures
        r@ == spec_list_path(title@),
{
    let mut s: String = "lists/".to_owned();
    s.append(title);
    s.append(".json");
    s
}

/// The exclusion rule turns on the title alone: the derived filename
/// `lists/<title>.json` contains the excluded fragment exactly when the
/// title contains it. The fixed prefix and suffix can neither carry the
/// fragment nor complete one across a boundary.
pub proof fn lemma_excluded_iff_title(title: Seq<char>)
    ensures
        spec_excluded(spec_list_path(title)) <==> occurs_in(title, "Moeb"@),
{
    reveal_strlit("lists/");
    reveal_strlit(".json");
    reveal_strlit("Moeb");
    let p = spec_list_path(title);
    let m = "Moeb"@;
    assert(m.len() == 4);
    assert(p.len() == 11 + title.len());
    assert forall|k: int| 0 <= k < title.len() implies p[6 + k] == title[k] by {}
    if occurs_in(title, m) {
        let j = choose|j: int| occurs_at(title, m, j);
        assert(occurs_at(p, m, 6 + j));
    }
    if occurs_in(p, m) {
        let i = choose|i: int| occurs_at(p, m, i);
        assert(p[i] == m[0] && p[i + 3] == m[3]);
        assert(m[0] == 'M' && m[3] == 'b');
        if i < 6 {
            assert(p[i] == "lists/"@[i]);
            assert(false);
        }
        if i >= 6 + title.len() {
            assert(p[i] == ".json"@[i - 6 - title.len()]);
            assert(false);
        }
        if i + 3 >= 6 + title.len() {
            assert(p[i + 3] == ".json"@[i + 3 - 6 - title.len()]);
            assert(false);
        }
        assert forall|k: int| 0 <= k < 4 implies title[(i - 6) + k] == m[k] by {
            assert(p[i + k] == m[k]);
        }
        assert(occurs_at(title, m, i - 6));
    }
}

/// The extraction path of one archive entry: `lists/misc/<name>`.
pub open spec fn spec_misc_path(name: Seq<char>) -> Seq<char> {
    "lists/misc/"@ + name
}

/// Builds the extraction path of one archive entry from its name.
pub fn derive_misc_path(name: &str) -> (r: String)
    ensures
        r@ == spec_misc_path(name@),
{
    let mut s: String = "lists/misc/".to_owned();
    s.append(name);
    s
}

} // verus!
