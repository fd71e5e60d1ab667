//! Path-based decisions: which names count as documents, and how platform
//! file URLs become filesystem paths.

use vstd::prelude::*;
use vstd::string::StrSliceExecFns;

verus! {

/// Whether `s` ends in `suffix`.
pub open spec fn ends_with(s: Seq<char>, suffix: Seq<char>) -> bool {
    s.len() >= suffix.len() && s.subrange(s.len() - suffix.len(), s.len() as int) == suffix
}

pub open spec fn suffix_md() -> Seq<char> {
    seq!['.', 'm', 'd']
}

pub open spec fn suffix_markdown() -> Seq<char> {
    seq!['.', 'm', 'a', 'r', 'k', 'd', 'o', 'w', 'n']
}

pub open spec fn suffix_txt() -> Seq<char> {
    seq!['.', 't', 'x', 't']
}

/// The recognized document extensions: an exact, case-sensitive suffix match
/// against `.md`, `.markdown` or `.txt`.
pub open spec fn is_document_name(s: Seq<char>) -> bool {
    ||| ends_with(s, suffix_md())
    ||| ends_with(s, suffix_markdown())
    ||| ends_with(s, suffix_txt())
}

/// The prefix a platform file-open notification may put before a path.
pub open spec fn file_scheme() -> Seq<char> {
    seq!['f', 'i', 'l', 'e', ':', '/', '/']
}

pub open spec fn has_file_scheme(s: Seq<char>) -> bool {
    s.len() >= file_scheme().len() && s.subrange(0, file_scheme().len() as int) == file_scheme()
}

/// The filesystem path carried by a platform-supplied URL: the `file://`
/// prefix is stripped when present, and anything else passes through.
pub open spec fn local_path_of(s: Seq<char>) -> Seq<char> {
    if has_file_scheme(s) {
        s.subrange(file_scheme().len() as int, s.len() as int)
    } else {
        s
    }
}

/// The characters of `s`, as a vector.
#[verifier::loop_isolation(false)]
fn str_chars(s: &str) -> (v: Vec<char>)
    ensures
        v@ == s@,
{
    let n = s.unicode_len();
    let mut v: Vec<char> = Vec::new();
    let mut i: usize = 0;
    while i < n
        invariant
            i <= n,
            v@ == s@.subrange(0, i as int),
        decreases n - i,
    {
        let c = s.get_char(i);
        v.push(c);
        i = i + 1;
    }
    proof {
        assert(v@ =~= s@);
    }
    v
}

/// Whether the characters `v` end in `suffix`.
#[verifier::loop_isolation(false)]
fn chars_end_with(v: &Vec<char>, suffix: &Vec<char>) -> (r: bool)
    ensures
        r == ends_with(v@, suffix@),
{
    let n = v.len();
    let m = suffix.len();
    if n < m {
        return false;
    }
    let base = n - m;
    let mut i: usize = 0;
    while i < m
        invariant
            i <= m,
            base == n - m,
            forall|j: int| 0 <= j < i ==> v@[base + j] == suffix@[j],
        decreases m - i,
    {
        if v[base + i] != suffix[i] {
            return false;
        }
        i = i + 1;
    }
    proof {
        assert(v@.subrange(n - m, n as int) =~= suffix@);
    }
    true
}

/// Whether `path` carries a recognized document extension.
pub fn is_document_path(path: &str) -> (r: bool)
    ensures
        r == is_document_name(path@),
{
    let chars = str_chars(path);
    let mut md: Vec<char> = Vec::new();
    md.push('.');
    md.push('m');
    md.push('d');
    proof {
        assert(md@ =~= suffix_md());
    }
    if chars_end_with(&chars, &md) {
        return true;
    }
    let mut markdown: Vec<char> = Vec::new();
    markdown.push('.');
    markdown.push('m');
    markdown.push('a');
    markdown.push('r');
    markdown.push('k');
    markdown.push('d');
    markdown.push('o');
    markdown.push('w');
    markdown.push('n');
    proof {
        assert(markdown@ =~= suffix_markdown());
    }
    if chars_end_with(&chars, &markdown) {
        return true;
    }
    let mut txt: Vec<char> = Vec::new();
    txt.push('.');
    txt.push('t');
    txt.push('x');
    txt.push('t');
    proof {
        assert(txt@ =~= suffix_txt());
    }
    chars_end_with(&chars, &txt)
}

/// Whether `path` is a candidate for opening: it existed on disk when the
/// caller checked (a single check, not re-verified continuously) and carries
/// a recognized document extension.
pub fn is_candidate_path(path: &str, path_exists: bool) -> (r: bool)
    ensures
        r == (path_exists && is_document_name(path@)),
{
    path_exists && is_document_path(path)
}

/// Converts a platform-supplied URL to a filesystem path by stripping the
/// `file://` prefix when present.
#[verifier::loop_isolation(false)]
pub fn url_to_path(url: &str) -> (r: String)
    ensures
        r@ == local_path_of(url@),
{
    let n = url.unicode_len();
    let mut scheme: Vec<char> = Vec::new();
    scheme.push('f');
    scheme.push('i');
    scheme.push('l');
    scheme.push('e');
    scheme.push(':');
    scheme.push('/');
    scheme.push('/');
    proof {
        assert(scheme@ =~= file_scheme());
    }
    let m = scheme.len();
    if n < m {
        proof {
            assert(!has_file_scheme(url@));
        }
        return url.to_owned();
    }
    let mut i: usize = 0;
    while i < m
        invariant
            i <= m,
            forall|j: int| 0 <= j < i ==> url@[j] == file_scheme()[j],
        decreases m - i,
    {
        if url.get_char(i) != scheme[i] {
            proof {
                assert(url@.subrange(0, m as int)[i as int] != file_scheme()[i as int]);
                assert(!has_file_scheme(url@));
            }
            return url.to_owned();
        }
        i = i + 1;
    }
    proof {
        assert(url@.subrange(0, m as int) =~= file_scheme());
        assert(has_file_scheme(url@));
    }
    let rest = url.substring_char(m, n);
    rest.to_owned()
}

/// The position of the first document name in `paths` at or after `start`;
/// used to pick which dropped file a window opens.
#[verifier::loop_isolation(false)]
pub fn next_document_index(paths: &Vec<String>, start: usize) -> (r: Option<usize>)
    ensures
        match r {
            Some(i) => {
                &&& start <= i < paths@.len()
                &&& is_document_name(paths@[i as int]@)
                &&& forall|j: int| start <= j < i ==> !is_document_name(paths@[j]@)
            },
            None => forall|j: int| start <= j < paths@.len() ==> !is_document_name(paths@[j]@),
        },
{
    let n = paths.len();
    let mut i: usize = start;
    if start > n {
        return None;
    }
    while i < n
        invariant
            start <= i <= n,
            forall|j: int| start <= j < i ==> !is_document_name(paths@[j]@),
        decreases n - i,
    {
        if is_document_path(paths[i].as_str()) {
            return Some(i);
        }
        i = i + 1;
    }
    None
}

} // verus!
