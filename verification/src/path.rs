//! Paths as bytes, and their components.
//!
//! A path is a sequence of bytes. Its components are the runs of bytes between
//! slashes, with three of them read specially: an empty run and `.` stand for
//! nothing, and `..` stands for the parent directory. A path that begins with a
//! slash has the root as its first component.

use vstd::prelude::*;
use vstd::slice::{slice_subrange, slice_to_vec};
use std::collections::VecDeque;

verus! {

/// The byte `/`.
pub const SLASH: u8 = 0x2f;

/// The byte `.`.
pub const DOT: u8 = 0x2e;

/// One component of a path, as the resolver's contracts speak of it.
pub enum Token {
    /// The leading `/` of an absolute path.
    Root,
    /// `..`
    Parent,
    /// A name: bytes without a slash, neither empty nor `.` nor `..`.
    Name(Seq<u8>),
}

/// One component of a path.
#[derive(Debug, PartialEq, Eq)]
pub enum Component {
    /// The leading `/` of an absolute path.
    Root,
    /// `..`
    Parent,
    /// A name.
    Name(Vec<u8>),
}

impl View for Component {
    type V = Token;

    open spec fn view(&self) -> Token {
        match *self {
            Component::Root => Token::Root,
            Component::Parent => Token::Parent,
            Component::Name(n) => Token::Name(n@),
        }
    }
}

/// The tokens that a sequence of components stands for.
pub open spec fn tokens(q: Seq<Component>) -> Seq<Token> {
    q.map_values(|c: Component| c@)
}

/// Where the run of bytes without a slash that begins at `from` ends.
pub open spec fn segment_end(s: Seq<u8>, from: int) -> int
    decreases s.len() - from,
{
    if from < 0 || from >= s.len() || s[from] == SLASH {
        from
    } else {
        segment_end(s, from + 1)
    }
}

/// What one run of bytes between slashes stands for: nothing for `.`, the
/// parent for `..`, else a name.
pub open spec fn segment_token(seg: Seq<u8>) -> Option<Token> {
    if seg =~= seq![DOT] {
        None
    } else if seg =~= seq![DOT, DOT] {
        Some(Token::Parent)
    } else {
        Some(Token::Name(seg))
    }
}

/// The components of `s` from index `from` on, the root left aside.
pub open spec fn tokens_from(s: Seq<u8>, from: int) -> Seq<Token>
    decreases s.len() - from,
{
    if from < 0 || from >= s.len() {
        Seq::empty()
    } else if s[from] == SLASH {
        tokens_from(s, from + 1)
    } else {
        let end = segment_end(s, from);
        if end <= from || end > s.len() {
            Seq::empty()
        } else {
            match segment_token(s.subrange(from, end)) {
                Some(t) => seq![t] + tokens_from(s, end),
                None => tokens_from(s, end),
            }
        }
    }
}

/// Whether the path begins with a slash.
pub open spec fn is_absolute(s: Seq<u8>) -> bool {
    s.len() > 0 && s[0] == SLASH
}

/// The components of a path, in order.
pub open spec fn components(s: Seq<u8>) -> Seq<Token> {
    if is_absolute(s) {
        seq![Token::Root] + tokens_from(s, 0)
    } else {
        tokens_from(s, 0)
    }
}

/// Whether the last component of the path is `..`.
pub open spec fn ends_with_parent(s: Seq<u8>) -> bool {
    components(s).len() > 0 && components(s).last() == Token::Parent
}

/// Whether the path ends with a slash.
pub open spec fn ends_with_slash(s: Seq<u8>) -> bool {
    s.len() > 0 && s.last() == SLASH
}

/// A run without a slash ends at or after its start, within the path, and at a
/// slash or at the end of the path.
pub proof fn lemma_segment_end(s: Seq<u8>, from: int)
    requires
        0 <= from <= s.len(),
    ensures
        from <= segment_end(s, from) <= s.len(),
        segment_end(s, from) < s.len() ==> s[segment_end(s, from)] == SLASH,
        forall|k: int| from <= k < segment_end(s, from) ==> s[k] != SLASH,
        from < s.len() && s[from] != SLASH ==> from < segment_end(s, from),
    decreases s.len() - from,
{
    if from < s.len() && s[from] != SLASH {
        lemma_segment_end(s, from + 1);
    }
}

/// Whether a byte of the path is NUL.
pub fn has_nul(path: &[u8]) -> (r: bool)
    ensures
        r == path@.contains(0u8),
{
    let mut i: usize = 0;
    while i < path.len()
        invariant
            i <= path@.len(),
            forall|k: int| 0 <= k < i ==> path@[k] != 0u8,
        decreases path@.len() - i,
    {
        if path[i] == 0 {
            return true;
        }
        i += 1;
    }
    false
}

/// Whether the path ends with a slash.
pub fn has_trailing_slash(path: &[u8]) -> (r: bool)
    ensures
        r == ends_with_slash(path@),
{
    path.len() > 0 && path[path.len() - 1] == SLASH
}

/// Whether the path begins with a slash.
pub fn starts_with_slash(path: &[u8]) -> (r: bool)
    ensures
        r == is_absolute(path@),
{
    path.len() > 0 && path[0] == SLASH
}

/// The component that the bytes of `path` from `from` to `end` stand for.
fn segment_component(path: &[u8], from: usize, end: usize) -> (r: Option<Component>)
    requires
        from < end <= path@.len(),
    ensures
        match r {
            Some(c) => segment_token(path@.subrange(from as int, end as int)) == Some(c@),
            None => segment_token(path@.subrange(from as int, end as int)) is None,
        },
{
    let ghost seg = path@.subrange(from as int, end as int);
    if end - from == 1 && path[from] == DOT {
        None
    } else if end - from == 2 && path[from] == DOT && path[from + 1] == DOT {
        Some(Component::Parent)
    } else {
        assert(seg =~= seq![DOT] ==> seg.len() == 1 && seg[0] == DOT);
        Some(Component::Name(slice_to_vec(slice_subrange(path, from, end))))
    }
}

/// The components of a path, in order. Empty runs and `.` are left out.
pub fn parse(path: &[u8]) -> (r: VecDeque<Component>)
    ensures
        tokens(r@) == components(path@),
{
    let mut out: VecDeque<Component> = VecDeque::new();
    if starts_with_slash(path) {
        out.push_back(Component::Root);
    }
    let ghost head = tokens(out@);
    let mut i: usize = 0;
    while i < path.len()
        invariant
            i <= path@.len(),
            tokens(out@) + tokens_from(path@, i as int) == head + tokens_from(path@, 0),
        decreases path@.len() - i,
    {
        if path[i] == SLASH {
            i += 1;
        } else {
            let mut end: usize = i + 1;
            proof {
                lemma_segment_end(path@, i as int);
            }
            while end < path.len() && path[end] != SLASH
                invariant
                    i < end <= path@.len(),
                    segment_end(path@, end as int) == segment_end(path@, i as int),
                decreases path@.len() - end,
            {
                end += 1;
            }
            match segment_component(path, i, end) {
                Some(c) => {
                    out.push_back(c);
                },
                None => {},
            }
            i = end;
        }
    }
    out
}

/// Whether `..` is among the components.
pub open spec fn has_parent(q: Seq<Token>) -> bool {
    exists|i: int| 0 <= i < q.len() && q[i] == Token::Parent
}

/// Whether `..` is among the components of the path.
pub fn contains_parent(path: &[u8]) -> (r: bool)
    ensures
        r == has_parent(components(path@)),
{
    let q = parse(path);
    let mut i: usize = 0;
    while i < q.len()
        invariant
            i <= q@.len(),
            tokens(q@) == components(path@),
            forall|k: int| 0 <= k < i ==> components(path@)[k] != Token::Parent,
        decreases q@.len() - i,
    {
        assert(tokens(q@)[i as int] == q@[i as int]@);
        match &q[i] {
            Component::Parent => {
                return true;
            },
            _ => {},
        }
        i += 1;
    }
    false
}

/// Whether the last component of the path is `..`.
pub fn last_is_parent(path: &[u8]) -> (r: bool)
    ensures
        r == ends_with_parent(path@),
{
    let q = parse(path);
    if q.len() == 0 {
        false
    } else {
        match &q[q.len() - 1] {
            Component::Parent => true,
            _ => false,
        }
    }
}

/// An absolute path begins with the root component, and no other component
/// of a path is the root.
pub proof fn law_root_is_first(path: Seq<u8>)
    ensures
        is_absolute(path) ==> components(path).len() > 0 && components(path)[0] == Token::Root,
        forall|i: int| 0 < i < components(path).len() ==> components(path)[i] != Token::Root,
        !is_absolute(path) ==> forall|i: int|
            0 <= i < components(path).len() ==> components(path)[i] != Token::Root,
{
    lemma_no_root_within(path, 0);
}

/// No component behind the first is the root.
proof fn lemma_no_root_within(path: Seq<u8>, from: int)
    ensures
        forall|i: int| 0 <= i < tokens_from(path, from).len() ==> tokens_from(path, from)[i] != Token::Root,
    decreases path.len() - from,
{
    if 0 <= from < path.len() {
        if path[from] == SLASH {
            lemma_no_root_within(path, from + 1);
        } else {
            let end = segment_end(path, from);
            if from < end <= path.len() {
                lemma_no_root_within(path, end);
            }
        }
    }
}

/// `.` has no component, and `/` has the root alone.
pub proof fn law_dot_and_slash()
    ensures
        components(seq![DOT]) =~= Seq::empty(),
        components(seq![SLASH]) =~= seq![Token::Root],
{
    reveal_with_fuel(tokens_from, 3);
    reveal_with_fuel(segment_end, 3);
}

/// Whether the bytes are one plain name: not empty, without a slash and
/// without a NUL byte, and neither `.` nor `..`. Such a name stands for one
/// entry of a directory and for nothing else.
pub open spec fn plain(name: Seq<u8>) -> bool {
    &&& name.len() > 0
    &&& !name.contains(SLASH)
    &&& !name.contains(0u8)
    &&& name != seq![DOT]
    &&& name != seq![DOT, DOT]
}

/// Whether every name among the components is plain.
pub open spec fn all_plain(q: Seq<Token>) -> bool {
    forall|i: int| 0 <= i < q.len() ==> (#[trigger] q[i] matches Token::Name(n) ==> plain(n))
}

/// Every name among the components from `from` on is plain.
proof fn lemma_tokens_plain(path: Seq<u8>, from: int)
    requires
        !path.contains(0u8),
    ensures
        all_plain(tokens_from(path, from)),
    decreases path.len() - from,
{
    if 0 <= from < path.len() {
        if path[from] == SLASH {
            lemma_tokens_plain(path, from + 1);
        } else {
            lemma_segment_end(path, from);
            lemma_tokens_plain(path, segment_end(path, from));
        }
    }
}

/// Every name among the components of a path without a NUL byte is plain.
pub proof fn law_components_plain(path: Seq<u8>)
    requires
        !path.contains(0u8),
    ensures
        all_plain(components(path)),
{
    lemma_tokens_plain(path, 0);
}

} // verus!
