//! The arguments of the Linux system call `openat2`, to which a whole
//! resolution can be handed where the kernel has it.

use vstd::prelude::*;
use vstd::slice::slice_to_vec;
use crate::constants::DEFAULT_CREATE_MODE;
use crate::error::Error;
use crate::flags::LookupFlags;
use crate::host::Host;
use crate::path::has_nul;

verus! {

/// A set of the kernel's `RESOLVE_*` options.
#[derive(Clone, Copy, Debug, PartialEq, Eq, Hash, Structural)]
pub struct ResolveFlags {
    bits: u64,
}

impl View for ResolveFlags {
    type V = u64;

    closed spec fn view(&self) -> u64 {
        self.bits
    }
}

impl ResolveFlags {
    /// Do not cross mount points.
    pub const NO_XDEV: u64 = 0x01;

    /// Do not follow the links under `/proc` that jump to another file.
    pub const NO_MAGICLINKS: u64 = 0x02;

    /// Do not follow symbolic links.
    pub const NO_SYMLINKS: u64 = 0x04;

    /// Fail where the walk would leave the directory it began in.
    pub const BENEATH: u64 = 0x08;

    /// Treat the directory that the walk began in as `/`.
    pub const IN_ROOT: u64 = 0x10;

    /// The bits of all options.
    pub const ALL: u64 = 0x1f;

    /// The empty set.
    pub fn empty() -> (r: ResolveFlags)
        ensures
            r@ == 0,
    {
        ResolveFlags { bits: 0 }
    }

    /// The bits of the set.
    pub fn bits(&self) -> (r: u64)
        ensures
            r == self@,
    {
        self.bits
    }

    /// The set with these bits, without those that stand for no option.
    pub fn from_bits_truncate(bits: u64) -> (r: ResolveFlags)
        ensures
            r@ == bits & ResolveFlags::ALL,
    {
        ResolveFlags { bits: bits & ResolveFlags::ALL }
    }

    /// Whether the set holds every bit of `mask`.
    pub open spec fn has(&self, mask: u64) -> bool {
        self@ & mask == mask
    }

    /// Whether the set holds every bit of `mask`.
    pub fn contains_bits(&self, mask: u64) -> (r: bool)
        ensures
            r == self.has(mask),
    {
        self.bits & mask == mask
    }

    /// Adds the options of `other`.
    pub fn insert(&mut self, other: ResolveFlags)
        ensures
            final(self)@ == old(self)@ | other@,
    {
        self.bits = self.bits | other.bits;
    }

    /// The options that stand for a set of lookup flags: always
    /// `NO_MAGICLINKS`; `NO_SYMLINKS` and `NO_XDEV` as the lookup flags have
    /// them; `IN_ROOT` under `IN_ROOT`, else `BENEATH`.
    pub open spec fn spec_for_lookup(flags: LookupFlags) -> u64 {
        ResolveFlags::NO_MAGICLINKS | (if flags.has(LookupFlags::NO_SYMLINKS) {
            ResolveFlags::NO_SYMLINKS
        } else {
            0
        }) | (if flags.has(LookupFlags::NO_XDEV) {
            ResolveFlags::NO_XDEV
        } else {
            0
        }) | (if flags.has(LookupFlags::IN_ROOT) {
            ResolveFlags::IN_ROOT
        } else {
            ResolveFlags::BENEATH
        })
    }

    /// The options that stand for a set of lookup flags.
    pub fn for_lookup(flags: LookupFlags) -> (r: ResolveFlags)
        ensures
            r@ == ResolveFlags::spec_for_lookup(flags),
    {
        let symlinks: u64 = if flags.no_symlinks() {
            ResolveFlags::NO_SYMLINKS
        } else {
            0
        };
        let xdev: u64 = if flags.no_xdev() {
            ResolveFlags::NO_XDEV
        } else {
            0
        };
        let scope: u64 = if flags.in_root() {
            ResolveFlags::IN_ROOT
        } else {
            ResolveFlags::BENEATH
        };
        ResolveFlags { bits: ResolveFlags::NO_MAGICLINKS | symlinks | xdev | scope }
    }
}

/// How `openat2` is to open a file.
#[derive(Clone, Debug, PartialEq, Eq, Hash)]
#[non_exhaustive]
pub struct OpenHow {
    /// The open flags.
    pub flags: i32,
    /// The mode of a file that is created; `None` for the default.
    pub mode: Option<u32>,
    /// How the path is resolved.
    pub resolve_flags: ResolveFlags,
}

/// The `open_how` structure as the kernel reads it.
#[derive(Clone, Copy, Debug, PartialEq, Eq, Hash, Structural)]
pub struct RawOpenHow {
    pub flags: u64,
    pub mode: u64,
    pub resolve: u64,
}

/// One call of `openat2`.
#[derive(Debug, PartialEq, Eq)]
pub struct Openat2Call {
    /// The directory that a relative path begins in.
    pub dirfd: i32,
    /// The path, without a NUL byte.
    pub path: Vec<u8>,
    /// How to open.
    pub how: RawOpenHow,
}

impl OpenHow {
    /// Open with `flags`, the default mode, and no resolve option.
    pub fn new(flags: i32) -> (r: OpenHow)
        ensures
            r.flags == flags,
            r.mode is None,
            r.resolve_flags@ == 0,
    {
        OpenHow { flags, mode: None, resolve_flags: ResolveFlags::empty() }
    }

    /// Whether the flags create a file: they hold `O_CREAT`, or on Linux
    /// `O_TMPFILE`.
    pub open spec fn creates(&self, host: Host) -> bool {
        ||| self.flags & host.open.o_creat == host.open.o_creat
        ||| (host.linux matches Some(l) && self.flags & l.o_tmpfile == l.o_tmpfile)
    }

    /// The mode that the kernel is given: the caller's where there is one, else
    /// `0o777` where the flags create a file, else 0.
    pub open spec fn spec_raw_mode(&self, host: Host) -> u64 {
        match self.mode {
            Some(mode) => mode as u64,
            None => if self.creates(host) {
                DEFAULT_CREATE_MODE
            } else {
                0
            },
        }
    }

    /// The mode that the kernel is given.
    pub fn raw_mode(&self, host: &Host) -> (r: u64)
        ensures
            r == self.spec_raw_mode(*host),
    {
        if let Some(mode) = self.mode {
            mode as u64
        } else {
            let tmpfile = match host.linux {
                Some(l) => self.flags & l.o_tmpfile == l.o_tmpfile,
                None => false,
            };
            if self.flags & host.open.o_creat == host.open.o_creat || tmpfile {
                DEFAULT_CREATE_MODE
            } else {
                0
            }
        }
    }

    /// The structure that the kernel is given: the flags with `O_CLOEXEC`
    /// forced on, the mode, and the bits of the resolve options.
    pub open spec fn spec_raw(&self, host: Host) -> RawOpenHow {
        RawOpenHow {
            flags: (self.flags | host.open.o_cloexec) as u64,
            mode: self.spec_raw_mode(host),
            resolve: self.resolve_flags@,
        }
    }
}

impl RawOpenHow {
    /// The structure that stands for `how` on `host`.
    pub fn from_how(how: &OpenHow, host: &Host) -> (r: RawOpenHow)
        ensures
            r == how.spec_raw(*host),
    {
        RawOpenHow {
            flags: (how.flags | host.open.o_cloexec) as u64,
            mode: how.raw_mode(host),
            resolve: how.resolve_flags.bits(),
        }
    }
}

/// How a walk under `lookup_flags` is handed to the kernel.
pub fn how_for(lookup_flags: LookupFlags, final_flags: i32, mode: u32) -> (r: OpenHow)
    ensures
        r.flags == final_flags,
        r.mode == Some(mode),
        r.resolve_flags@ == ResolveFlags::spec_for_lookup(lookup_flags),
{
    let mut how = OpenHow::new(final_flags);
    how.mode = Some(mode);
    how.resolve_flags = ResolveFlags::for_lookup(lookup_flags);
    how
}

/// Whether a failure of `openat2` with `errno` means that the kernel cannot
/// do the walk, so that it has to be made step by step: `ENOSYS` where the
/// kernel lacks the call, `E2BIG` where it lacks an option.
pub open spec fn spec_falls_back(host: Host, errno: i32) -> bool {
    errno == host.errno.enosys || errno == host.errno.e2big
}

/// Whether a failure of `openat2` with `errno` means that the kernel cannot do
/// the walk.
pub fn falls_back(host: &Host, errno: i32) -> (r: bool)
    ensures
        r == spec_falls_back(*host, errno),
{
    errno == host.errno.enosys || errno == host.errno.e2big
}

/// The call of `openat2` for `path` relative to `dirfd`, or to the working
/// directory where `dirfd` is `None`. A path with a NUL byte is refused, and
/// a host other than Linux lacks the call.
pub fn openat2(dirfd: Option<i32>, path: &[u8], how: &OpenHow, host: &Host) -> (r: Result<
    Openat2Call,
    Error,
>)
    ensures
        match r {
            Ok(call) => {
                &&& !path@.contains(0u8)
                &&& host.linux matches Some(l)
                &&& call.dirfd == match dirfd {
                    Some(fd) => fd,
                    None => l.at_fdcwd,
                }
                &&& call.path@ == path@
                &&& call.how == how.spec_raw(*host)
            },
            Err(e) => {
                if path@.contains(0u8) {
                    e == Error::InvalidInput
                } else {
                    host.linux is None && e == Error::Os(host.errno.enosys)
                }
            },
        },
{
    if has_nul(path) {
        return Err(Error::InvalidInput);
    }
    match host.linux {
        Some(l) => {
            let fd = match dirfd {
                Some(fd) => fd,
                None => l.at_fdcwd,
            };
            Ok(Openat2Call { dirfd: fd, path: slice_to_vec(path), how: RawOpenHow::from_how(how, host) })
        },
        None => Err(Error::Os(host.errno.enosys)),
    }
}

} // verus!
