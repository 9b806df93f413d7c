//! The lookup flags, and the policy that they stand for.

use vstd::prelude::*;
use vstd::std_specs::ops::BitOrSpec;
use crate::host::Host;

verus! {

/// A set of lookup options. The bit of each option is fixed, so that a set can
/// be stored as its bits.
#[derive(Clone, Copy, Debug, PartialEq, Eq, Hash, Structural)]
pub struct LookupFlags {
    bits: u64,
}

/// What a set of lookup flags decides at each step of a resolution.
#[derive(Clone, Copy, Debug, PartialEq, Eq, Structural)]
pub struct Policy {
    /// A root component restarts the walk at the base directory.
    pub allow_absolute: bool,
    /// `..` components are accepted.
    pub allow_parent: bool,
    /// Symbolic links are followed.
    pub resolve_symlinks: bool,
    /// Every file that is opened must lie on the device of the base directory.
    pub check_dev: bool,
    /// The whole walk is first offered to the kernel.
    pub use_kernel_fastpath: bool,
}

impl View for LookupFlags {
    type V = u64;

    closed spec fn view(&self) -> u64 {
        self.bits
    }
}

impl LookupFlags {
    /// Do not resolve symbolic links: fail with `ELOOP` where one is met.
    pub const NO_SYMLINKS: u64 = 1;

    /// Treat the base directory as `/`: an absolute path, and `..` at the base
    /// directory, stay at the base directory.
    pub const IN_ROOT: u64 = 2;

    /// Accept `..` components.
    pub const ALLOW_PARENT_COMPONENTS: u64 = 4;

    /// Do not cross into another file system.
    pub const NO_XDEV: u64 = 8;

    /// With `NO_XDEV` on Linux: crossing a bind mount must be allowed. The
    /// kernel cannot tell bind mounts apart, so the walk is then made step by
    /// step and devices are compared.
    pub const XDEV_BIND_OK: u64 = 16;

    /// The bits of all options.
    pub const ALL: u64 = 31;

    /// The empty set.
    pub fn empty() -> (r: LookupFlags)
        ensures
            r@ == 0,
    {
        LookupFlags { bits: 0 }
    }

    /// The set of all options.
    pub fn all() -> (r: LookupFlags)
        ensures
            r@ == LookupFlags::ALL,
    {
        LookupFlags { bits: LookupFlags::ALL }
    }

    /// The bits of the set.
    pub fn bits(&self) -> (r: u64)
        ensures
            r == self@,
    {
        self.bits
    }

    /// The set with these bits, unless a bit among them stands for no option.
    pub fn from_bits(bits: u64) -> (r: Option<LookupFlags>)
        ensures
            r is Some <==> bits & !LookupFlags::ALL == 0,
            r matches Some(f) ==> f@ == bits,
    {
        if bits & !LookupFlags::ALL == 0 {
            Some(LookupFlags { bits })
        } else {
            None
        }
    }

    /// The set with these bits, without those that stand for no option.
    pub fn from_bits_truncate(bits: u64) -> (r: LookupFlags)
        ensures
            r@ == bits & LookupFlags::ALL,
    {
        LookupFlags { bits: bits & LookupFlags::ALL }
    }

    /// Whether the set is empty.
    pub fn is_empty(&self) -> (r: bool)
        ensures
            r == (self@ == 0),
    {
        self.bits == 0
    }

    /// Whether every option of `other` is in the set.
    pub open spec fn spec_contains(&self, other: LookupFlags) -> bool {
        self@ & other@ == other@
    }

    /// Whether every option of `other` is in the set.
    #[verifier::when_used_as_spec(spec_contains)]
    pub fn contains(&self, other: LookupFlags) -> (r: bool)
        ensures
            r == self.spec_contains(other),
    {
        self.bits & other.bits == other.bits
    }

    /// Whether the set holds every bit of `mask`.
    pub open spec fn has(&self, mask: u64) -> bool {
        self@ & mask == mask
    }

    /// The options of both sets.
    pub fn union(self, other: LookupFlags) -> (r: LookupFlags)
        ensures
            r@ == self@ | other@,
    {
        LookupFlags { bits: self.bits | other.bits }
    }

    /// Adds the options of `other`.
    pub fn insert(&mut self, other: LookupFlags)
        ensures
            final(self)@ == old(self)@ | other@,
    {
        self.bits = self.bits | other.bits;
    }

    /// Takes the options of `other` out.
    pub fn remove(&mut self, other: LookupFlags)
        ensures
            final(self)@ == old(self)@ & !other@,
    {
        self.bits = self.bits & !other.bits;
    }

    /// Whether `NO_SYMLINKS` is set.
    pub fn no_symlinks(&self) -> (r: bool)
        ensures
            r == self.has(LookupFlags::NO_SYMLINKS),
    {
        self.bits & LookupFlags::NO_SYMLINKS == LookupFlags::NO_SYMLINKS
    }

    /// Whether `IN_ROOT` is set.
    pub fn in_root(&self) -> (r: bool)
        ensures
            r == self.has(LookupFlags::IN_ROOT),
    {
        self.bits & LookupFlags::IN_ROOT == LookupFlags::IN_ROOT
    }

    /// Whether `ALLOW_PARENT_COMPONENTS` is set.
    pub fn allow_parent_components(&self) -> (r: bool)
        ensures
            r == self.has(LookupFlags::ALLOW_PARENT_COMPONENTS),
    {
        self.bits & LookupFlags::ALLOW_PARENT_COMPONENTS == LookupFlags::ALLOW_PARENT_COMPONENTS
    }

    /// Whether `NO_XDEV` is set.
    pub fn no_xdev(&self) -> (r: bool)
        ensures
            r == self.has(LookupFlags::NO_XDEV),
    {
        self.bits & LookupFlags::NO_XDEV == LookupFlags::NO_XDEV
    }

    /// Whether `XDEV_BIND_OK` is set.
    pub fn xdev_bind_ok(&self) -> (r: bool)
        ensures
            r == self.has(LookupFlags::XDEV_BIND_OK),
    {
        self.bits & LookupFlags::XDEV_BIND_OK == LookupFlags::XDEV_BIND_OK
    }

    /// The policy of the set on `host`. The kernel is asked first on Linux,
    /// unless both `NO_XDEV` and `XDEV_BIND_OK` are set.
    pub open spec fn spec_policy(&self, host: Host) -> Policy {
        Policy {
            allow_absolute: self.has(LookupFlags::IN_ROOT),
            allow_parent: self.has(LookupFlags::ALLOW_PARENT_COMPONENTS),
            resolve_symlinks: !self.has(LookupFlags::NO_SYMLINKS),
            check_dev: self.has(LookupFlags::NO_XDEV),
            use_kernel_fastpath: host.is_linux() && !(self.has(LookupFlags::NO_XDEV) && self.has(
                LookupFlags::XDEV_BIND_OK,
            )),
        }
    }

    /// The policy of the set on `host`.
    pub fn policy(&self, host: &Host) -> (r: Policy)
        ensures
            r == self.spec_policy(*host),
    {
        Policy {
            allow_absolute: self.in_root(),
            allow_parent: self.allow_parent_components(),
            resolve_symlinks: !self.no_symlinks(),
            check_dev: self.no_xdev(),
            use_kernel_fastpath: host.linux.is_some() && !(self.no_xdev() && self.xdev_bind_ok()),
        }
    }
}

impl core::ops::BitOr for LookupFlags {
    type Output = LookupFlags;

    fn bitor(self, rhs: LookupFlags) -> (r: LookupFlags) {
        LookupFlags { bits: self.bits | rhs.bits }
    }
}

impl vstd::std_specs::ops::BitOrSpecImpl for LookupFlags {
    open spec fn obeys_bitor_spec() -> bool {
        true
    }

    open spec fn bitor_req(self, rhs: LookupFlags) -> bool {
        true
    }

    closed spec fn bitor_spec(self, rhs: LookupFlags) -> LookupFlags {
        LookupFlags { bits: self.bits | rhs.bits }
    }
}

/// Two sets with the same bits are the same set.
pub proof fn law_same_bits(a: LookupFlags, b: LookupFlags)
    requires
        a@ == b@,
    ensures
        a == b,
{
}

/// `|` on two sets is their union.
pub proof fn law_bitor_is_union(a: LookupFlags, b: LookupFlags)
    ensures
        #[trigger] a.bitor_spec(b)@ == a@ | b@,
{
}

} // verus!
