//! The structured result item served to callers: a matched path enriched
//! with a display name — the last `/`-separated segment of the path — and
//! an initially empty tag list reserved for later classification.

use vstd::prelude::*;

verus! {

/// The mathematical shape of a [`FileInfo`].
pub struct FileInfoView {
    pub path: Seq<char>,
    pub name: Seq<char>,
    pub tags: Seq<Seq<char>>,
}

/// What follows the last `/` of `s`: the whole of `s` when it holds no
/// `/`, and empty when `s` ends in one.
pub open spec fn after_last_slash(s: Seq<char>) -> Seq<char>
    decreases s.len(),
{
    if s.len() == 0 {
        s
    } else if s.last() == '/' {
        Seq::empty()
    } else {
        after_last_slash(s.drop_last()).push(s.last())
    }
}

/// The record that enriching one matched path yields: the path itself,
/// its last segment as the display name, and no tags.
pub open spec fn file_info_of(path: Seq<char>) -> FileInfoView {
    FileInfoView { path: path, name: after_last_slash(path), tags: Seq::empty() }
}

/// One enriched filesystem match.
pub struct FileInfo {
    pub path: String,
    pub name: String,
    pub tags: Vec<String>,
}

impl View for FileInfo {
    type V = FileInfoView;

    open spec fn view(&self) -> FileInfoView {
        FileInfoView { path: self.path@, name: self.name@, tags: self.tags.deep_view() }
    }
}

/// A suffix of `s` that starts right after a `/` (or at the very front)
/// and holds no further `/` is exactly what follows the last slash.
proof fn lemma_after_last_slash_is_suffix(s: Seq<char>, i: int)
    requires
        0 <= i <= s.len(),
        forall|j: int| i <= j < s.len() ==> s[j] != '/',
        i > 0 ==> s[i - 1] == '/',
    ensures
        after_last_slash(s) == s.subrange(i, s.len() as int),
    decreases s.len(),
{
    if i == s.len() {
        assert(after_last_slash(s) =~= s.subrange(i, s.len() as int));
    } else {
        let t = s.drop_last();
        assert(s.last() != '/');
        lemma_after_last_slash_is_suffix(t, i);
        assert(after_last_slash(s) =~= s.subrange(i, s.len() as int));
    }
}

/// Enriches one matched path into a [`FileInfo`] whose name is the last
/// path segment and whose tag list is empty.
pub fn file_info_from_path(path: String) -> (r: FileInfo)
    ensures
        r@ == file_info_of(path@),
{
    let n = path.as_str().unicode_len();
    let mut i: usize = n;
    while i > 0 && path.as_str().get_char(i - 1) != '/'
        invariant
            i <= n,
            n == path@.len(),
            forall|j: int| i <= j < n ==> path@[j] != '/',
        decreases i,
    {
        i = i - 1;
    }
    let name = String::from_str(path.as_str().substring_char(i, n));
    proof {
        lemma_after_last_slash_is_suffix(path@, i as int);
    }
    let r = FileInfo { path, name, tags: Vec::new() };
    proof {
        assert(r@.tags =~= Seq::<Seq<char>>::empty());
    }
    r
}

/// Enriches a finished enumeration's ordered matches one by one,
/// preserving their order and count.
pub fn enrich_paths(paths: Vec<String>) -> (r: Vec<FileInfo>)
    ensures
        r@.len() == paths@.len(),
        forall|k: int| #![auto] 0 <= k < paths@.len() ==> r@[k]@ == file_info_of(paths@[k]@),
{
    let ghost orig = paths@;
    let mut rest = paths;
    let mut out: Vec<FileInfo> = Vec::new();
    while rest.len() > 0
        invariant
            out@.len() + rest@.len() == orig.len(),
            rest@ == orig.skip(out@.len() as int),
            forall|k: int| #![auto] 0 <= k < out@.len() ==> out@[k]@ == file_info_of(orig[k]@),
        decreases rest.len(),
    {
        let ghost done = out@.len() as int;
        let p = rest.remove(0);
        proof {
            assert(p == orig[done]);
            assert(rest@ =~= orig.skip(done + 1));
        }
        out.push(file_info_from_path(p));
    }
    out
}

} // verus!
