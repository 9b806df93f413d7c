//! Splitting a path into the directory that holds its last name, and that name.
//!
//! An operation on a name (creating, removing, reading a link) is made by one
//! system call on the directory that holds the name. That directory is found
//! by a walk of its own, under the same lookup flags.

use vstd::prelude::*;
use vstd::slice::{slice_subrange, slice_to_vec};
use crate::error::Error;
use crate::flags::LookupFlags;
use crate::host::Host;
use crate::path::{ends_with_parent, has_nul, is_absolute, starts_with_slash, DOT, SLASH};
use crate::util::{
    basename_range,
    basename_start,
    law_basename_is_no_parent,
    law_basename_shape,
    spec_path_basename,
    trimmed_len,
};

verus! {

/// Where an operation on a path takes place, as the contracts speak of it.
pub enum Split {
    /// At the base directory itself: the path has no name in it.
    Base,
    /// At `name` in the base directory.
    InBase { name: Seq<u8> },
    /// At `name` in the directory that `parent` resolves to.
    InParent { parent: Seq<u8>, name: Seq<u8> },
    /// At the directory that `path` resolves to: the path ends in `..`, so it
    /// has no last name.
    Whole { path: Seq<u8> },
}

/// Where an operation on a path takes place.
#[derive(Debug, PartialEq, Eq)]
pub enum Inner {
    /// At the base directory itself.
    Base,
    /// At `name` in the base directory.
    InBase { name: Vec<u8> },
    /// At `name` in the directory that `parent` resolves to.
    InParent { parent: Vec<u8>, name: Vec<u8> },
    /// At the directory that `path` resolves to.
    Whole { path: Vec<u8> },
}

impl View for Inner {
    type V = Split;

    open spec fn view(&self) -> Split {
        match *self {
            Inner::Base => Split::Base,
            Inner::InBase { name } => Split::InBase { name: name@ },
            Inner::InParent { parent, name } => Split::InParent { parent: parent@, name: name@ },
            Inner::Whole { path } => Split::Whole { path: path@ },
        }
    }
}

/// The index of the first byte at or after `from` that is no slash.
pub open spec fn skip_slashes(s: Seq<u8>, from: int) -> int
    decreases s.len() - from,
{
    if 0 <= from < s.len() && s[from] == SLASH {
        skip_slashes(s, from + 1)
    } else {
        from
    }
}

/// Where an operation on a path that is not empty and begins with no slash
/// takes place. A path with a NUL byte is refused.
pub open spec fn split_relative(rest: Seq<u8>) -> Result<Split, Error> {
    if rest.contains(0u8) {
        Err(Error::InvalidInput)
    } else {
        match spec_path_basename(rest) {
            Some(name) => {
                if basename_start(rest) == 0 {
                    Ok(Split::InBase { name })
                } else {
                    Ok(Split::InParent { parent: rest.subrange(0, basename_start(rest)), name })
                }
            },
            None => Ok(Split::Whole { path: rest }),
        }
    }
}

/// Where an operation on `path` takes place.
///
/// An absolute path fails with `EXDEV` unless `IN_ROOT` is set; under
/// `IN_ROOT` its leading slashes are dropped, and what is left is split; with
/// nothing left, the path is the base directory. An empty path fails with
/// `ENOENT`.
pub open spec fn split(host: Host, path: Seq<u8>, flags: LookupFlags) -> Result<Split, Error> {
    if is_absolute(path) {
        if !flags.has(LookupFlags::IN_ROOT) {
            Err(Error::Os(host.errno.exdev))
        } else {
            let rest = path.subrange(skip_slashes(path, 0), path.len() as int);
            if rest.len() == 0 {
                Ok(Split::Base)
            } else {
                split_relative(rest)
            }
        }
    } else if path.len() == 0 {
        Err(Error::Os(host.errno.enoent))
    } else {
        split_relative(path)
    }
}

/// What a split hands on covers the path: the parent and the name, one behind
/// the other, are the path without the slashes at its end but one; the parent
/// ends with a slash; and the name is never `..`. A path is handed on whole
/// only where its last component is `..`, and a path that is split is never
/// the base directory.
pub proof fn law_split_covers(rest: Seq<u8>)
    requires
        rest.len() > 0,
        !is_absolute(rest),
    ensures
        match split_relative(rest) {
            Ok(Split::Base) => false,
            Ok(Split::InBase { name }) => {
                &&& name == rest.subrange(0, trimmed_len(rest, rest.len() as int))
                &&& name != seq![DOT, DOT] && name != seq![DOT, DOT, SLASH]
            },
            Ok(Split::InParent { parent, name }) => {
                &&& parent + name == rest.subrange(0, trimmed_len(rest, rest.len() as int))
                &&& parent.len() > 0 && parent.last() == SLASH
                &&& name != seq![DOT, DOT] && name != seq![DOT, DOT, SLASH]
            },
            Ok(Split::Whole { path }) => path == rest && ends_with_parent(rest),
            Err(e) => e == Error::InvalidInput && rest.contains(0u8),
        },
{
    law_basename_shape(rest);
    law_basename_is_no_parent(rest);
    // A path that begins with no slash is not the root alone
    crate::path::law_root_is_first(rest);
}

/// Where an operation on a path that begins with no slash takes place.
fn prepare_relative(rest: &[u8]) -> (r: Result<Inner, Error>)
    ensures
        match r {
            Ok(inner) => split_relative(rest@) == Ok::<Split, Error>(inner@),
            Err(e) => split_relative(rest@) == Err::<Split, Error>(e),
        },
{
    if has_nul(rest) {
        return Err(Error::InvalidInput);
    }
    match basename_range(rest) {
        Some((start, end)) => {
            let name = slice_to_vec(slice_subrange(rest, start, end));
            if start == 0 {
                Ok(Inner::InBase { name })
            } else {
                Ok(Inner::InParent { parent: slice_to_vec(slice_subrange(rest, 0, start)), name })
            }
        },
        None => Ok(Inner::Whole { path: slice_to_vec(rest) }),
    }
}

/// Where an operation on `path` takes place: see [`split`].
pub fn prepare_inner_operation(host: &Host, path: &[u8], lookup_flags: LookupFlags) -> (r: Result<
    Inner,
    Error,
>)
    ensures
        match r {
            Ok(inner) => split(*host, path@, lookup_flags) == Ok::<Split, Error>(inner@),
            Err(e) => split(*host, path@, lookup_flags) == Err::<Split, Error>(e),
        },
{
    if starts_with_slash(path) {
        if !lookup_flags.in_root() {
            return Err(Error::Os(host.errno.exdev));
        }
        let mut from: usize = 0;
        while from < path.len() && path[from] == SLASH
            invariant
                from <= path@.len(),
                skip_slashes(path@, from as int) == skip_slashes(path@, 0),
            decreases path@.len() - from,
        {
            from += 1;
        }
        let rest = slice_subrange(path, from, path.len());
        if rest.len() == 0 {
            Ok(Inner::Base)
        } else {
            prepare_relative(rest)
        }
    } else if path.len() == 0 {
        Err(Error::Os(host.errno.enoent))
    } else {
        prepare_relative(path)
    }
}

} // verus!
