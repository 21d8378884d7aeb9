//! Deterministic on-disk and URI path construction: the per-version cache
//! directory, the cached binary path inside it, `file://` URIs, and the
//! display name of a worktree root (its last path segment).

use vstd::prelude::*;
use vstd::string::StringExecFns;

verus! {

/// The cache directory for a release version: `download/{version}`.
pub open spec fn version_dir_spec(version: Seq<char>) -> Seq<char> {
    "download/"@ + version
}

/// The cached binary path for a release version:
/// `download/{version}/{name}`, where the name is the configured binary
/// file name inside the archive. Its presence on disk is both the cache
/// key and the installation marker.
pub open spec fn binary_path_spec(name: Seq<char>, version: Seq<char>) -> Seq<char> {
    version_dir_spec(version) + "/"@ + name
}

pub fn version_dir(version: &str) -> (r: String)
    ensures
        r@ == version_dir_spec(version@),
{
    let mut dir = String::from_str("download/");
    dir.append(version);
    dir
}

pub fn binary_path(name: &str, version: &str) -> (r: String)
    ensures
        r@ == binary_path_spec(name@, version@),
{
    let mut path = version_dir(version);
    path.append("/");
    path.append(name);
    path
}

pub fn file_uri(path: &str) -> (r: String)
    ensures
        r@ == "file://"@ + path@,
{
    let mut uri = String::from_str("file://");
    uri.append(path);
    uri
}

/// The suffix of `s` after its last `/`; `s` itself when it holds no `/`.
pub open spec fn tail_after_slash(s: Seq<char>) -> Seq<char>
    decreases s.len(),
{
    if s.len() == 0 {
        s
    } else if s[s.len() - 1] == '/' {
        Seq::<char>::empty()
    } else {
        tail_after_slash(s.subrange(0, s.len() - 1)).push(s[s.len() - 1])
    }
}

proof fn lemma_tail_no_slash(s: Seq<char>)
    requires
        forall|j: int| 0 <= j < s.len() ==> s[j] != '/',
    ensures
        tail_after_slash(s) == s,
    decreases s.len(),
{
    if s.len() > 0 {
        lemma_tail_no_slash(s.subrange(0, s.len() - 1));
        assert(tail_after_slash(s) =~= s);
    }
}

proof fn lemma_tail_after_slash_at(s: Seq<char>, i: int)
    requires
        0 < i <= s.len(),
        s[i - 1] == '/',
        forall|j: int| i <= j < s.len() ==> s[j] != '/',
    ensures
        tail_after_slash(s) == s.subrange(i, s.len() as int),
    decreases s.len() - i,
{
    if i == s.len() {
        assert(tail_after_slash(s) =~= s.subrange(i, s.len() as int));
    } else {
        let prefix = s.subrange(0, s.len() - 1);
        lemma_tail_after_slash_at(prefix, i);
        assert(tail_after_slash(s) =~= s.subrange(i, s.len() as int));
    }
}

/// The display name of a worktree root: everything after the last `/`, or
/// the whole string when it holds none.
pub fn folder_name(path: &str) -> (r: String)
    ensures
        r@ == tail_after_slash(path@),
{
    let n = path.unicode_len();
    let mut i = n;
    while i > 0
        invariant
            i <= n,
            n == path@.len(),
            forall|j: int| i <= j < n ==> path@[j] != '/',
        decreases i,
    {
        if path.get_char(i - 1) == '/' {
            let suffix = path.substring_char(i, n);
            proof {
                lemma_tail_after_slash_at(path@, i as int);
            }
            return String::from_str(suffix);
        }
        i = i - 1;
    }
    proof {
        lemma_tail_no_slash(path@);
    }
    String::from_str(path)
}

} // verus!
