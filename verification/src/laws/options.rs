//! The flags of every open, and the options that the kernel is given.

use vstd::prelude::*;
use crate::flags::LookupFlags;
use crate::laws::{law_run_wf, run};
use crate::open::{Outcome, ReplyView, RequestView, State};
use crate::openat2::ResolveFlags;

verus! {

/// Every `openat` of a walk carries `O_NOFOLLOW` and `O_CLOEXEC`: the kernel
/// never follows a symbolic link at the name that is opened, and no
/// descriptor of the walk outlives an `exec`. An `openat` of a component
/// that is not the last asks for a directory.
pub proof fn law_open_flags(s: State)
    ensures
        s.open_flags() & s.host.open.o_nofollow == s.host.open.o_nofollow,
        s.open_flags() & s.host.open.o_cloexec == s.host.open.o_cloexec,
        s.queue.len() > 0 ==> s.open_flags() & s.host.open.o_directory == s.host.open.o_directory,
{
    let n = s.host.open.o_nofollow;
    let c = s.host.open.o_cloexec;
    let d = s.host.open.o_directory;
    let f = s.final_flags;
    assert((f | n | c) & n == n && (f | n | c) & c == c) by (bit_vector);
    assert((d | n | c) & n == n && (d | n | c) & c == c && (d | n | c) & d == d) by (bit_vector);
    match s.host.linux {
        Some(l) => {
            let p = l.o_path;
            assert(((p | d) | n | c) & n == n && ((p | d) | n | c) & c == c && ((p | d) | n | c) & d
                == d) by (bit_vector);
        },
        None => {},
    }
}

/// The flags of every `openat` of a walk are those of [`State::open_flags`],
/// whatever the replies.
pub proof fn law_run_open_flags(o: Outcome, replies: Seq<ReplyView>)
    requires
        o.wf(),
    ensures
        run(o, replies).request matches RequestView::Openat { flags, .. } ==> {
            &&& flags & o.state.host.open.o_nofollow == o.state.host.open.o_nofollow
            &&& flags & o.state.host.open.o_cloexec == o.state.host.open.o_cloexec
        },
{
    law_run_wf(o, replies);
    law_open_flags(run(o, replies).state);
}

/// What the kernel is told where a walk is handed to it whole: never to
/// follow a magic link; not to follow symbolic links exactly under
/// `NO_SYMLINKS`; not to cross mount points exactly under `NO_XDEV`; and to
/// treat the base directory as the root under `IN_ROOT`, else to stay beneath
/// it.
pub proof fn law_kernel_options(flags: LookupFlags)
    ensures
        ({
            let r = ResolveFlags::spec_for_lookup(flags);
            &&& r & ResolveFlags::NO_MAGICLINKS == ResolveFlags::NO_MAGICLINKS
            &&& (r & ResolveFlags::NO_SYMLINKS == ResolveFlags::NO_SYMLINKS) == flags.has(
                LookupFlags::NO_SYMLINKS,
            )
            &&& (r & ResolveFlags::NO_XDEV == ResolveFlags::NO_XDEV) == flags.has(
                LookupFlags::NO_XDEV,
            )
            &&& (r & ResolveFlags::IN_ROOT == ResolveFlags::IN_ROOT) == flags.has(
                LookupFlags::IN_ROOT,
            )
            &&& (r & ResolveFlags::BENEATH == ResolveFlags::BENEATH) == !flags.has(
                LookupFlags::IN_ROOT,
            )
        }),
{
    let x: u64 = if flags.has(LookupFlags::NO_SYMLINKS) {
        ResolveFlags::NO_SYMLINKS
    } else {
        0
    };
    let y: u64 = if flags.has(LookupFlags::NO_XDEV) {
        ResolveFlags::NO_XDEV
    } else {
        0
    };
    let z: u64 = if flags.has(LookupFlags::IN_ROOT) {
        ResolveFlags::IN_ROOT
    } else {
        ResolveFlags::BENEATH
    };
    let r = ResolveFlags::NO_MAGICLINKS | x | y | z;
    assert(r == ResolveFlags::spec_for_lookup(flags));
    assert({
        &&& (2u64 | x | y | z) & 2 == 2
        &&& ((2u64 | x | y | z) & 4 == 4) == (x == 4)
        &&& ((2u64 | x | y | z) & 1 == 1) == (y == 1)
        &&& ((2u64 | x | y | z) & 0x10 == 0x10) == (z == 0x10)
        &&& ((2u64 | x | y | z) & 8 == 8) == (z == 8)
    }) by (bit_vector)
        requires
            x == 0 || x == 4,
            y == 0 || y == 1,
            z == 0x10 || z == 8,
    ;
}

} // verus!
