//! Path-text reasoning: file names, stems, extensions, and the sidecar path.
//!
//! Paths are handled as plain character sequences.  The file name of a path
//! begins just after the last path separator; its extension is everything
//! after the last dot that lies strictly inside the file name (a leading dot,
//! as in a hidden file, starts no extension).

use vstd::prelude::*;

verus! {

/// The two tag-container families the pipeline can write to.
#[derive(Clone, Copy, Debug, PartialEq, Eq, Structural)]
pub enum FormatClass {
    Mp3Like,
    FlacLike,
}

/// Characters that separate path components.
pub open spec fn is_path_sep(c: char) -> bool {
    c == '/' || c == '\\'
}

/// Executable mirror of `is_path_sep`.
fn char_is_path_sep(c: char) -> (r: bool)
    ensures
        r == is_path_sep(c),
{
    c == '/' || c == '\\'
}

/// Index at which the file-name part of `s` begins: just after the last
/// path separator, or 0 when there is none.
pub open spec fn name_start(s: Seq<char>) -> int
    decreases s.len(),
{
    if s.len() == 0 {
        0
    } else if is_path_sep(s[s.len() - 1]) {
        s.len() as int
    } else {
        name_start(s.drop_last())
    }
}

pub proof fn lemma_name_start(s: Seq<char>)
    ensures
        0 <= name_start(s) <= s.len(),
        name_start(s) > 0 ==> is_path_sep(s[name_start(s) - 1]),
        forall|j: int| name_start(s) <= j < s.len() ==> !is_path_sep(s[j]),
    decreases s.len(),
{
    if s.len() == 0 {
    } else if is_path_sep(s[s.len() - 1]) {
    } else {
        lemma_name_start(s.drop_last());
        assert(forall|j: int| 0 <= j < s.len() - 1 ==> s.drop_last()[j] == s[j]);
    }
}

/// A position with a separator just before it and none after it is exactly
/// where the file name starts.
proof fn lemma_name_start_unique(s: Seq<char>, k: int)
    requires
        0 <= k <= s.len(),
        k > 0 ==> is_path_sep(s[k - 1]),
        forall|j: int| k <= j < s.len() ==> !is_path_sep(s[j]),
    ensures
        k == name_start(s),
    decreases s.len(),
{
    if s.len() == 0 {
    } else if is_path_sep(s[s.len() - 1]) {
        assert(k == s.len());
    } else {
        assert(k < s.len());
        let s2 = s.drop_last();
        assert(forall|j: int| 0 <= j < s2.len() ==> s2[j] == s[j]);
        lemma_name_start_unique(s2, k);
    }
}

/// Index of the last dot strictly inside the file name of `s`, or -1 when
/// the file name has no extension.
pub open spec fn dot_index(s: Seq<char>) -> int
    decreases s.len(),
{
    if s.len() == 0 {
        -1
    } else if is_path_sep(s[s.len() - 1]) {
        -1
    } else if s[s.len() - 1] == '.' && s.len() - 1 > name_start(s) {
        s.len() - 1
    } else {
        dot_index(s.drop_last())
    }
}

pub proof fn lemma_dot_index_bounds(s: Seq<char>)
    ensures
        dot_index(s) == -1 || (name_start(s) < dot_index(s) < s.len() && s[dot_index(s)] == '.'),
    decreases s.len(),
{
    if s.len() == 0 {
    } else if is_path_sep(s[s.len() - 1]) {
    } else if s[s.len() - 1] == '.' && s.len() - 1 > name_start(s) {
    } else {
        let s2 = s.drop_last();
        lemma_name_start(s);
        lemma_name_start(s2);
        lemma_dot_index_bounds(s2);
        assert(name_start(s2) == name_start(s));
        assert(forall|j: int| 0 <= j < s2.len() ==> s2[j] == s[j]);
        if dot_index(s2) >= 0 {
            assert(s[dot_index(s2)] == s2[dot_index(s2)]);
        }
    }
}

/// When no dot stands inside the file name, there is no extension.
proof fn lemma_dot_index_none(s: Seq<char>)
    requires
        forall|j: int| name_start(s) < j < s.len() ==> s[j] != '.',
    ensures
        dot_index(s) == -1,
    decreases s.len(),
{
    if s.len() == 0 {
    } else if is_path_sep(s[s.len() - 1]) {
    } else {
        let s2 = s.drop_last();
        lemma_name_start(s);
        lemma_name_start(s2);
        assert(forall|j: int| 0 <= j < s2.len() ==> s2[j] == s[j]);
        if s[s.len() - 1] == '.' && s.len() - 1 > name_start(s) {
            assert(false);
        } else {
            assert(name_start(s2) == name_start(s));
            assert forall|j: int| name_start(s2) < j < s2.len() implies s2[j] != '.' by {
                assert(s2[j] == s[j]);
                assert(s[j] != '.');
            };
            lemma_dot_index_none(s2);
        }
    }
}

/// The last dot inside the file name is exactly `dot_index`.
proof fn lemma_dot_index_some(s: Seq<char>, d: int)
    requires
        name_start(s) < d < s.len(),
        s[d] == '.',
        forall|j: int| d < j < s.len() ==> s[j] != '.',
    ensures
        dot_index(s) == d,
    decreases s.len(),
{
    lemma_name_start(s);
    if is_path_sep(s[s.len() - 1]) {
        assert(false);
    } else if d == s.len() - 1 {
    } else {
        let s2 = s.drop_last();
        assert(forall|j: int| 0 <= j < s2.len() ==> s2[j] == s[j]);
        assert(s[s.len() - 1] != '.');
        assert(name_start(s2) == name_start(s));
        assert forall|j: int| d < j < s2.len() implies s2[j] != '.' by {
            assert(s2[j] == s[j]);
            assert(s[j] != '.');
        };
        lemma_dot_index_some(s2, d);
    }
}

/// The file name of `s` without its extension.
pub open spec fn file_stem(s: Seq<char>) -> Seq<char> {
    if dot_index(s) >= 0 {
        s.subrange(name_start(s), dot_index(s))
    } else {
        s.subrange(name_start(s), s.len() as int)
    }
}

/// The extension of `s`, when its file name has one.
pub open spec fn ext_of(s: Seq<char>) -> Option<Seq<char>> {
    if dot_index(s) >= 0 {
        Some(s.subrange(dot_index(s) + 1, s.len() as int))
    } else {
        None
    }
}

/// The sibling path that carries the lyrics sidecar: the extension is
/// replaced by `lrc`, or `.lrc` is appended when there is none.
pub open spec fn lrc_path_of(s: Seq<char>) -> Seq<char> {
    if dot_index(s) >= 0 {
        s.subrange(0, dot_index(s)) + ".lrc"@
    } else {
        s + ".lrc"@
    }
}

/// Case-insensitive match against the `mp3` extension.
pub open spec fn is_mp3_ext(e: Seq<char>) -> bool {
    e.len() == 3 && (e[0] == 'm' || e[0] == 'M') && (e[1] == 'p' || e[1] == 'P') && e[2] == '3'
}

/// Case-insensitive match against the `flac` extension.
pub open spec fn is_flac_ext(e: Seq<char>) -> bool {
    e.len() == 4 && (e[0] == 'f' || e[0] == 'F') && (e[1] == 'l' || e[1] == 'L') && (e[2] == 'a'
        || e[2] == 'A') && (e[3] == 'c' || e[3] == 'C')
}

/// The format family a path belongs to, judged by its extension alone.
pub open spec fn audio_class_of(s: Seq<char>) -> Option<FormatClass> {
    match ext_of(s) {
        Some(e) => if is_mp3_ext(e) {
            Some(FormatClass::Mp3Like)
        } else if is_flac_ext(e) {
            Some(FormatClass::FlacLike)
        } else {
            None
        },
        None => None,
    }
}

/// Finds where the file name of `s` begins.
pub fn find_name_start(s: &str) -> (k: usize)
    ensures
        k as int == name_start(s@),
{
    let n = s.unicode_len();
    let mut i = n;
    while i > 0
        invariant
            i <= n,
            n == s@.len(),
            forall|j: int| i <= j < n ==> !is_path_sep(s@[j]),
        decreases i,
    {
        if char_is_path_sep(s.get_char(i - 1)) {
            proof {
                lemma_name_start_unique(s@, i as int);
            }
            return i;
        }
        i = i - 1;
    }
    proof {
        lemma_name_start_unique(s@, 0);
    }
    0
}

/// Finds the last dot inside the file name of `s`, if any.
pub fn find_dot(s: &str) -> (r: Option<usize>)
    ensures
        r matches Some(d) ==> d as int == dot_index(s@),
        r is None ==> dot_index(s@) == -1,
{
    let n = s.unicode_len();
    let ns = find_name_start(s);
    proof {
        lemma_name_start(s@);
    }
    let mut i = n;
    while i > 0 && i - 1 > ns
        invariant
            i <= n,
            n == s@.len(),
            ns as int == name_start(s@),
            forall|j: int| i <= j < n ==> s@[j] != '.',
        decreases i,
    {
        if s.get_char(i - 1) == '.' {
            proof {
                lemma_dot_index_some(s@, i - 1);
            }
            return Some(i - 1);
        }
        i = i - 1;
    }
    proof {
        lemma_dot_index_none(s@);
    }
    None
}

/// The file name of `s` without its extension, as a slice of `s`.
pub fn stem_str<'a>(s: &'a str) -> (r: &'a str)
    ensures
        r@ == file_stem(s@),
{
    let n = s.unicode_len();
    let ns = find_name_start(s);
    proof {
        lemma_name_start(s@);
        lemma_dot_index_bounds(s@);
    }
    match find_dot(s) {
        Some(d) => s.substring_char(ns, d),
        None => s.substring_char(ns, n),
    }
}

/// Derives the sidecar path of `s`: the extension replaced by `lrc`, or
/// `.lrc` appended when there is none.
pub fn lrc_path(path: &str) -> (r: String)
    ensures
        r@ == lrc_path_of(path@),
{
    proof {
        lemma_dot_index_bounds(path@);
        lemma_name_start(path@);
    }
    let base: &str = match find_dot(path) {
        Some(d) => path.substring_char(0, d),
        None => path,
    };
    let owned: String = base.to_owned();
    owned.concat(".lrc")
}

/// Classifies a path by its extension, case-insensitively.
pub fn audio_class(path: &str) -> (r: Option<FormatClass>)
    ensures
        r == audio_class_of(path@),
{
    let n = path.unicode_len();
    proof {
        lemma_dot_index_bounds(path@);
    }
    match find_dot(path) {
        Some(d) => {
            let e = path.substring_char(d + 1, n);
            let l = e.unicode_len();
            if l == 3 {
                let c0 = e.get_char(0);
                let c1 = e.get_char(1);
                let c2 = e.get_char(2);
                if (c0 == 'm' || c0 == 'M') && (c1 == 'p' || c1 == 'P') && c2 == '3' {
                    Some(FormatClass::Mp3Like)
                } else {
                    None
                }
            } else if l == 4 {
                let c0 = e.get_char(0);
                let c1 = e.get_char(1);
                let c2 = e.get_char(2);
                let c3 = e.get_char(3);
                if (c0 == 'f' || c0 == 'F') && (c1 == 'l' || c1 == 'L') && (c2 == 'a' || c2 == 'A')
                    && (c3 == 'c' || c3 == 'C') {
                    Some(FormatClass::FlacLike)
                } else {
                    None
                }
            } else {
                None
            }
        },
        None => None,
    }
}

} // verus!
