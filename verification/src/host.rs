//! The numbers of the host system that the resolver's decisions depend on.
//!
//! Error numbers and open flags differ between operating systems and between
//! processor architectures. The resolver reads them from a [`Host`] value, and
//! states its contracts over the same value.

use vstd::prelude::*;

verus! {

/// The error numbers that the resolver tests for or reports.
#[derive(Clone, Copy, Debug, PartialEq, Eq)]
pub struct Errnos {
    pub e2big: i32,
    pub eagain: i32,
    pub ebusy: i32,
    pub eexist: i32,
    pub einval: i32,
    pub eisdir: i32,
    pub eloop: i32,
    pub enoent: i32,
    pub enosys: i32,
    pub enotdir: i32,
    pub enotempty: i32,
    pub enotsup: i32,
    pub exdev: i32,
}

/// The flags of `openat` that the resolver sets or tests.
#[derive(Clone, Copy, Debug, PartialEq, Eq)]
pub struct OpenFlags {
    pub o_rdonly: i32,
    pub o_wronly: i32,
    pub o_rdwr: i32,
    pub o_creat: i32,
    pub o_excl: i32,
    pub o_trunc: i32,
    pub o_append: i32,
    pub o_directory: i32,
    pub o_nofollow: i32,
    pub o_cloexec: i32,
}

/// What only a Linux host has.
#[derive(Clone, Copy, Debug, PartialEq, Eq)]
pub struct Linux {
    pub o_path: i32,
    pub o_tmpfile: i32,
    pub at_fdcwd: i32,
}

/// The host system.
#[derive(Clone, Copy, Debug, PartialEq, Eq)]
pub struct Host {
    pub errno: Errnos,
    pub open: OpenFlags,
    /// `Some` on Linux, `None` elsewhere.
    pub linux: Option<Linux>,
    /// The error number with which `openat` refuses a symbolic link under
    /// `O_NOFOLLOW` where the host does not use `ELOOP` for that: `EMLINK` on
    /// FreeBSD and DragonFly, `EFTYPE` on NetBSD, `None` elsewhere.
    pub nofollow_errno: Option<i32>,
}

impl Host {
    /// Whether the host is Linux.
    pub open spec fn is_linux(&self) -> bool {
        self.linux is Some
    }

    /// The flags with which a directory is opened that is only walked through:
    /// `O_DIRECTORY`, and on Linux `O_PATH` too, since such a handle is only
    /// handed to further `*at` calls.
    pub open spec fn spec_base_dir_flags(&self) -> i32 {
        match self.linux {
            Some(l) => l.o_path | self.open.o_directory,
            None => self.open.o_directory,
        }
    }

    /// The flags for opening a directory that is only walked through.
    #[verifier::when_used_as_spec(spec_base_dir_flags)]
    pub fn base_dir_flags(&self) -> (r: i32)
        ensures
            r == self.spec_base_dir_flags(),
    {
        match self.linux {
            Some(l) => l.o_path | self.open.o_directory,
            None => self.open.o_directory,
        }
    }

    /// The error number of a failed `openat`, with the host's own number for a
    /// symbolic link met under `O_NOFOLLOW` turned into `ELOOP`.
    pub open spec fn spec_normalize(&self, errno: i32) -> i32 {
        if self.nofollow_errno == Some(errno) {
            self.errno.eloop
        } else {
            errno
        }
    }

    /// The error number of a failed `openat`, normalized.
    #[verifier::when_used_as_spec(spec_normalize)]
    pub fn normalize(&self, errno: i32) -> (r: i32)
        ensures
            r == self.spec_normalize(errno),
    {
        match self.nofollow_errno {
            Some(alias) => if alias == errno {
                self.errno.eloop
            } else {
                errno
            },
            None => errno,
        }
    }
}

} // verus!
