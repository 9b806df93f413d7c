//! Small helpers: file identity, the host's symbolic link limit, and the last
//! name of a path.

use vstd::prelude::*;
use vstd::slice::slice_subrange;
use crate::constants::DEFAULT_SYMLOOP_MAX;
use crate::error::Error;
use crate::flags::LookupFlags;
use crate::path::{
    components,
    ends_with_parent,
    lemma_segment_end,
    parse,
    segment_end,
    tokens_from,
    Component,
    Token,
    DOT,
    SLASH,
};

verus! {

/// What identifies a file: the device it lies on and its number there.
#[derive(Clone, Copy, Debug, PartialEq, Eq, Hash, Structural)]
pub struct FileId {
    pub dev: u64,
    pub ino: u64,
}

/// Whether two results of `stat` are of the same file.
pub fn same_stat(st1: &FileId, st2: &FileId) -> (r: bool)
    ensures
        r == (st1.dev == st2.dev && st1.ino == st2.ino),
{
    st1.dev == st2.dev && st1.ino == st2.ino
}

/// Whether two directories are the same, given what `fstat` returned for each:
/// the error of the first if it failed, else that of the second, else whether
/// device and file number agree.
pub fn same_dir(d1: Result<FileId, Error>, d2: Result<FileId, Error>) -> (r: Result<bool, Error>)
    ensures
        r == match (d1, d2) {
            (Err(e), _) => Err::<bool, Error>(e),
            (Ok(_), Err(e)) => Err(e),
            (Ok(a), Ok(b)) => Ok(a.dev == b.dev && a.ino == b.ino),
        },
{
    match d1 {
        Err(e) => Err(e),
        Ok(a) => match d2 {
            Err(e) => Err(e),
            Ok(b) => Ok(same_stat(&a, &b)),
        },
    }
}

/// The host's limit on symbolic links, given what `sysconf(_SC_SYMLOOP_MAX)`
/// returned: a negative result means that the host names none.
pub fn get_symloop_max(sysconf_result: i64) -> (r: Option<usize>)
    ensures
        r == spec_symloop_max(sysconf_result),
{
    if sysconf_result >= 0 {
        Some(
            #[verifier::truncate]
            (sysconf_result as usize),
        )
    } else {
        None
    }
}

/// The host's limit on symbolic links, given the result of `sysconf`.
pub open spec fn spec_symloop_max(sysconf_result: i64) -> Option<usize> {
    if sysconf_result >= 0 {
        Some(sysconf_result as usize)
    } else {
        None
    }
}

/// The number of symbolic links that a resolution under `flags` follows: none
/// under `NO_SYMLINKS`, else the host's limit, else the default of 40.
pub open spec fn spec_symlink_limit(flags: LookupFlags, sysconf_result: i64) -> usize {
    if flags.has(LookupFlags::NO_SYMLINKS) {
        0
    } else {
        match spec_symloop_max(sysconf_result) {
            Some(n) => n,
            None => DEFAULT_SYMLOOP_MAX,
        }
    }
}

/// The number of symbolic links that a resolution under `flags` follows.
pub fn symlink_limit(flags: LookupFlags, sysconf_result: i64) -> (r: usize)
    ensures
        r == spec_symlink_limit(flags, sysconf_result),
{
    if flags.no_symlinks() {
        0
    } else {
        match get_symloop_max(sysconf_result) {
            Some(n) => n,
            None => DEFAULT_SYMLOOP_MAX,
        }
    }
}

/// The length of the first `n` bytes of `s` once all but one of the slashes at
/// their end are dropped.
pub open spec fn trimmed_len(s: Seq<u8>, n: int) -> int
    decreases n,
{
    if 2 <= n <= s.len() && s[n - 1] == SLASH && s[n - 2] == SLASH {
        trimmed_len(s, n - 1)
    } else {
        n
    }
}

/// The index after the last slash among the first `n` bytes of `s`, or 0 where
/// there is none.
pub open spec fn after_last_slash(s: Seq<u8>, n: int) -> int
    decreases n,
{
    if n <= 0 || n > s.len() {
        0
    } else if s[n - 1] == SLASH {
        n
    } else {
        after_last_slash(s, n - 1)
    }
}

/// Where the last name of the path begins: after the last slash that is not
/// the path's last byte.
pub open spec fn basename_start(s: Seq<u8>) -> int {
    after_last_slash(s, trimmed_len(s, s.len() as int) - 1)
}

/// Whether the path has no last name: it is the root alone, or its last
/// component is `..`.
pub open spec fn has_no_basename(s: Seq<u8>) -> bool {
    components(s) =~= seq![Token::Root] || ends_with_parent(s)
}

/// The last name of a path, with one slash behind it where the path ends in
/// slashes. The root alone and a path that ends in `..` have none.
pub open spec fn spec_path_basename(s: Seq<u8>) -> Option<Seq<u8>> {
    if has_no_basename(s) {
        None
    } else {
        Some(s.subrange(basename_start(s), trimmed_len(s, s.len() as int)))
    }
}

/// What is cut off the end of a path holds only slashes, behind a slash.
proof fn lemma_trimmed_len(s: Seq<u8>, n: int)
    requires
        0 <= n <= s.len(),
    ensures
        0 <= trimmed_len(s, n) <= n,
        n > 0 ==> trimmed_len(s, n) > 0,
        forall|k: int| trimmed_len(s, n) <= k < n ==> s[k] == SLASH,
        trimmed_len(s, n) < n ==> s[trimmed_len(s, n) - 1] == SLASH,
    decreases n,
{
    if 2 <= n && s[n - 1] == SLASH && s[n - 2] == SLASH {
        lemma_trimmed_len(s, n - 1);
    }
}

/// No slash lies between the last slash and the end.
proof fn lemma_after_last_slash(s: Seq<u8>, n: int)
    requires
        n <= s.len(),
    ensures
        0 <= after_last_slash(s, n),
        after_last_slash(s, n) <= n || (n < 0 && after_last_slash(s, n) == 0),
        forall|k: int| after_last_slash(s, n) <= k < n ==> s[k] != SLASH,
        after_last_slash(s, n) > 0 ==> s[after_last_slash(s, n) - 1] == SLASH,
    decreases n,
{
    if n > 0 && s[n - 1] != SLASH {
        lemma_after_last_slash(s, n - 1);
    }
}

/// The last name of a path is its last run of bytes without a slash, with the
/// slash behind it where there is one: it begins at the start of the path or
/// behind a slash, holds no slash before its last byte, and only slashes
/// follow it.
pub proof fn law_basename_shape(s: Seq<u8>)
    ensures
        ({
            let start = basename_start(s);
            let end = trimmed_len(s, s.len() as int);
            &&& 0 <= start <= end <= s.len()
            &&& forall|k: int| start <= k < end - 1 ==> s[k] != SLASH
            &&& start > 0 ==> s[start - 1] == SLASH
            &&& forall|k: int| end <= k < s.len() ==> s[k] == SLASH
            &&& end < s.len() ==> s[end - 1] == SLASH
        }),
{
    lemma_trimmed_len(s, s.len() as int);
    lemma_after_last_slash(s, trimmed_len(s, s.len() as int) - 1);
}

/// The components from `from` on end with those from `to` on, where a run of
/// bytes between slashes begins at `to`.
proof fn lemma_tokens_end_alike(s: Seq<u8>, from: int, to: int)
    requires
        0 <= from <= to <= s.len(),
        from < to ==> s[to - 1] == SLASH,
        tokens_from(s, to).len() > 0,
    ensures
        tokens_from(s, from).len() > 0,
        tokens_from(s, from).last() == tokens_from(s, to).last(),
    decreases to - from,
{
    if from < to {
        if s[from] == SLASH {
            lemma_tokens_end_alike(s, from + 1, to);
        } else {
            lemma_segment_end(s, from);
            let end = segment_end(s, from);
            lemma_tokens_end_alike(s, end, to);
        }
    }
}

/// Where only slashes follow, there is no component.
proof fn lemma_no_tokens_in_slashes(s: Seq<u8>, from: int)
    requires
        0 <= from,
        forall|k: int| from <= k < s.len() ==> s[k] == SLASH,
    ensures
        tokens_from(s, from).len() == 0,
    decreases s.len() - from,
{
    if from < s.len() {
        lemma_no_tokens_in_slashes(s, from + 1);
    }
}

/// The last name of a path is never `..`, with or without a slash behind it:
/// where the last run of bytes between slashes is `..`, the last component of
/// the path is the parent, and the path has no last name.
pub proof fn law_basename_is_no_parent(s: Seq<u8>)
    ensures
        spec_path_basename(s) != Some(seq![DOT, DOT]),
        spec_path_basename(s) != Some(seq![DOT, DOT, SLASH]),
{
    let start = basename_start(s);
    let end = trimmed_len(s, s.len() as int);
    law_basename_shape(s);
    let name = s.subrange(start, end);
    if name =~= seq![DOT, DOT] || name =~= seq![DOT, DOT, SLASH] {
        // The run of bytes that begins at `start` is `..`, and only slashes follow it
        let stop = start + 2;
        lemma_segment_end(s, start);
        assert(segment_end(s, start) == stop);
        lemma_no_tokens_in_slashes(s, stop);
        assert(tokens_from(s, start) =~= seq![Token::Parent]);
        // So the last component of the path is the parent
        lemma_tokens_end_alike(s, 0, start);
        assert(ends_with_parent(s));
    }
}

/// Whether the path has no last name.
pub fn lacks_basename(path: &[u8]) -> (r: bool)
    ensures
        r == has_no_basename(path@),
{
    let q = parse(path);
    if q.len() == 0 {
        false
    } else {
        let ghost toks = components(path@);
        assert(toks[0] == q@[0]@);
        let only_root = q.len() == 1 && match &q[0] {
            Component::Root => true,
            _ => false,
        };
        let parent_last = match &q[q.len() - 1] {
            Component::Parent => true,
            _ => false,
        };
        only_root || parent_last
    }
}

/// Where the last name of a path begins and ends, where it has one.
pub fn basename_range(path: &[u8]) -> (r: Option<(usize, usize)>)
    ensures
        match r {
            Some((start, end)) => {
                &&& !has_no_basename(path@)
                &&& start == basename_start(path@)
                &&& end == trimmed_len(path@, path@.len() as int)
                &&& start <= end <= path@.len()
            },
            None => has_no_basename(path@),
        },
{
    if lacks_basename(path) {
        return None;
    }
    let mut end: usize = path.len();
    while end >= 2 && path[end - 1] == SLASH && path[end - 2] == SLASH
        invariant
            end <= path@.len(),
            trimmed_len(path@, end as int) == trimmed_len(path@, path@.len() as int),
        decreases end,
    {
        end -= 1;
    }
    if end == 0 {
        return Some((0, 0));
    }
    let mut start: usize = end - 1;
    while start > 0 && path[start - 1] != SLASH
        invariant
            start < end <= path@.len(),
            after_last_slash(path@, start as int) == after_last_slash(path@, end - 1),
        decreases start,
    {
        start -= 1;
    }
    Some((start, end))
}

/// The last name of a path, with one slash behind it where the path ends in
/// slashes. The root alone and a path that ends in `..` have none.
pub fn path_basename(path: &[u8]) -> (r: Option<&[u8]>)
    ensures
        match r {
            Some(name) => spec_path_basename(path@) == Some(name@),
            None => spec_path_basename(path@) is None,
        },
{
    match basename_range(path) {
        Some((start, end)) => Some(slice_subrange(path, start, end)),
        None => None,
    }
}

} // verus!
