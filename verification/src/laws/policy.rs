//! The lookup flags at work: what a walk refuses.

use vstd::prelude::*;
use crate::error::Error;
use crate::flags::LookupFlags;
use crate::host::Host;
use crate::laws::{law_next_wf, law_start_wf, run};
use crate::open::{advance, initial, next, start, Outcome, Pending, ReplyView, RequestView, State};
use crate::path::{components, ends_with_slash, has_parent, is_absolute, law_root_is_first, Token};

verus! {

/// Under `NO_SYMLINKS` a symbolic link is never followed: whenever the walk
/// learns that a name is one, it fails with `ELOOP`, whatever the error was
/// with which the name could not be opened.
pub proof fn law_no_symlinks(s: State, target: Seq<u8>)
    requires
        s.inv(),
        s.flags.has(LookupFlags::NO_SYMLINKS),
        s.pending is Link,
    ensures
        next(s, ReplyView::Target(target)).request == RequestView::Return(
            Err(Error::Os(s.host.errno.eloop)),
        ),
{
}

/// Without `IN_ROOT` the walk fails with `EXDEV` when it comes to a root
/// component.
pub proof fn law_root_needs_in_root(s: State)
    requires
        !s.flags.has(LookupFlags::IN_ROOT),
        s.queue.len() > 0,
        s.queue[0] == Token::Root,
    ensures
        advance(s).request == RequestView::Return(Err(Error::Os(s.host.errno.exdev))),
{
}

/// Without `ALLOW_PARENT_COMPONENTS` the walk fails with `EXDEV` when it comes
/// to `..`.
pub proof fn law_parent_needs_flag(s: State)
    requires
        !s.flags.has(LookupFlags::ALLOW_PARENT_COMPONENTS),
        s.queue.len() > 0,
        s.queue[0] == Token::Parent,
    ensures
        advance(s).request == RequestView::Return(Err(Error::Os(s.host.errno.exdev))),
{
}

/// With `ALLOW_PARENT_COMPONENTS` but without `IN_ROOT`, `..` at the base
/// directory fails with `EXDEV`: the walk never goes above the base directory.
pub proof fn law_parent_of_base(s: State)
    requires
        !s.flags.has(LookupFlags::IN_ROOT),
        s.current is None,
        s.queue.len() > 0,
        s.queue[0] == Token::Parent,
    ensures
        advance(s).request == RequestView::Return(Err(Error::Os(s.host.errno.exdev))),
{
}

/// Without `IN_ROOT`, an absolute path fails with `EXDEV` where the walk is
/// made step by step: at once, or under `NO_XDEV` once the device of the base
/// directory is known. No component is opened.
pub proof fn law_absolute_path_refused(
    host: Host,
    base: i32,
    path: Seq<u8>,
    flags: LookupFlags,
    final_flags: i32,
    mode: u32,
    sysconf_symloop_max: i64,
    id: crate::util::FileId,
)
    requires
        !flags.has(LookupFlags::IN_ROOT),
        is_absolute(path),
        !path.contains(0u8),
        !flags.spec_policy(host).use_kernel_fastpath,
    ensures
        ({
            let first = start(
                initial(host, base, path, flags, final_flags, mode, sysconf_symloop_max),
                path,
            );
            let refused = RequestView::Return(Err(Error::Os(host.errno.exdev)));
            if flags.has(LookupFlags::NO_XDEV) {
                &&& first.request == RequestView::Fstat { fd: base }
                &&& next(first.state, ReplyView::Stat(id)).request == refused
            } else {
                first.request == refused
            }
        }),
{
    law_root_is_first(path);
}

/// Without `IN_ROOT`, a symbolic link whose target is absolute is never
/// followed: the walk fails, and with `EXDEV` unless the link is one too many
/// or its target holds a NUL byte.
pub proof fn law_absolute_target_refused(s: State, target: Seq<u8>)
    requires
        !s.flags.has(LookupFlags::IN_ROOT),
        s.pending is Link,
        is_absolute(target),
    ensures
        next(s, ReplyView::Target(target)).request is Return,
        next(s, ReplyView::Target(target)).request->Return_0 is Err,
        s.seen < s.limit && !target.contains(0u8) ==> next(
            s,
            ReplyView::Target(target),
        ).request == RequestView::Return(Err(Error::Os(s.host.errno.exdev))),
{
    law_root_is_first(target);
    if s.seen < s.limit && !target.contains(0u8) {
        assert((components(target) + s.queue)[0] == Token::Root);
    }
}

/// Without `ALLOW_PARENT_COMPONENTS`, a path with `..` among its components
/// is not handed to the kernel: it fails with `EXDEV` without a system call.
pub proof fn law_parent_in_path_refused(
    host: Host,
    base: i32,
    path: Seq<u8>,
    flags: LookupFlags,
    final_flags: i32,
    mode: u32,
    sysconf_symloop_max: i64,
)
    requires
        !flags.has(LookupFlags::ALLOW_PARENT_COMPONENTS),
        has_parent(components(path)),
        !path.contains(0u8),
        flags.spec_policy(host).use_kernel_fastpath,
    ensures
        ({
            let first = start(
                initial(host, base, path, flags, final_flags, mode, sysconf_symloop_max),
                path,
            );
            &&& first.request == RequestView::Return(Err(Error::Os(host.errno.exdev)))
            &&& first.close.len() == 0
        }),
{
}

/// Whether a component that the policy rejects waits in the queue: `..`
/// without `ALLOW_PARENT_COMPONENTS`, or the root without `IN_ROOT`.
pub open spec fn barred_at(s: State, i: int) -> bool {
    &&& 0 <= i < s.queue.len()
    &&& {
        ||| s.queue[i] == Token::Parent && !s.flags.has(LookupFlags::ALLOW_PARENT_COMPONENTS)
        ||| s.queue[i] == Token::Root && !s.flags.has(LookupFlags::IN_ROOT)
    }
}

/// Whether some component that the policy rejects waits in the queue.
pub open spec fn barred(s: State) -> bool {
    exists|i: int| barred_at(s, i)
}

/// Whether the request ends the walk with an error.
pub open spec fn fails(request: RequestView) -> bool {
    request matches RequestView::Return(r) && r is Err
}

/// A rejected component in the queue ends the walk with an error, unless a
/// name before it is opened first.
proof fn lemma_advance_barred(s: State, i: int)
    requires
        barred_at(s, i),
    ensures
        fails(advance(s).request) || (advance(s).request is Openat && barred(advance(s).state)),
    decreases s.queue.len(),
{
    let rest = s.queue.subrange(1, s.queue.len() as int);
    match s.queue[0] {
        Token::Root => {
            if s.policy().allow_absolute {
                let t = State { queue: rest, current: None, parents: Seq::empty(), ..s };
                assert(barred_at(t, i - 1));
                lemma_advance_barred(t, i - 1);
            }
        },
        Token::Parent => {
            if s.policy().allow_parent {
                match s.current {
                    Some(fd) => {
                        let t = if s.parents.len() > 0 {
                            State {
                                queue: rest,
                                current: Some(s.parents.last()),
                                parents: s.parents.drop_last(),
                                ..s
                            }
                        } else {
                            State { queue: rest, current: None, ..s }
                        };
                        assert(barred_at(t, i - 1));
                        lemma_advance_barred(t, i - 1);
                    },
                    None => {
                        if s.policy().allow_absolute {
                            let t = State { queue: rest, ..s };
                            assert(barred_at(t, i - 1));
                            lemma_advance_barred(t, i - 1);
                        }
                    },
                }
            }
        },
        Token::Name(name) => {
            assert(barred_at(advance(s).state, i - 1));
        },
    }
}

/// A walk with a rejected component in its queue stays so, or fails: no reply
/// makes it return a descriptor.
pub proof fn law_barred_step(s: State, reply: ReplyView)
    requires
        s.inv(),
        barred(s),
        !(s.pending is Kernel),
    ensures
        ({
            let o = next(s, reply);
            fails(o.request) || (!(o.request is Return) && barred(o.state) && !(o.state.pending is Kernel))
        }),
{
    let idle = State { pending: Pending::Nothing, ..s };
    let i = choose|i: int| barred_at(s, i);
    law_next_wf(s, reply);
    match (s.pending, reply) {
        (Pending::BaseDevice, ReplyView::Stat(id)) => {
            let t = State { base_dev: id.dev, ..idle };
            assert(barred_at(t, i));
            lemma_advance_barred(t, i);
        },
        (Pending::Open { name }, ReplyView::Fd(fd)) => {
            if s.policy().check_dev {
                assert(barred_at(next(s, reply).state, i));
            } else {
                let t = if s.policy().allow_parent {
                    State { current: Some(fd), parents: s.dirs(), ..idle }
                } else {
                    State { current: Some(fd), parents: Seq::empty(), ..idle }
                };
                assert(barred_at(t, i));
                lemma_advance_barred(t, i);
            }
        },
        (Pending::Open { name }, ReplyView::Errno(e)) => {
            assert(barred_at(next(s, reply).state, i) || fails(next(s, reply).request));
        },
        (Pending::Device { fd }, ReplyView::Stat(id)) => {
            if id.dev == s.base_dev {
                let u = idle;
                let t = if s.policy().allow_parent {
                    State { current: Some(fd), parents: u.dirs(), ..u }
                } else {
                    State { current: Some(fd), parents: Seq::empty(), ..u }
                };
                assert(barred_at(t, i));
                lemma_advance_barred(t, i);
            }
        },
        (Pending::Link { name, errno, raw }, ReplyView::Target(target)) => {
            if s.seen < s.limit && !target.contains(0u8) {
                let t = State {
                    seen: (s.seen + 1) as usize,
                    final_flags: if s.queue.len() == 0 && ends_with_slash(target) {
                        s.final_flags | s.host.open.o_directory
                    } else {
                        s.final_flags
                    },
                    queue: components(target) + s.queue,
                    ..idle
                };
                assert(barred_at(t, components(target).len() + i));
                lemma_advance_barred(t, components(target).len() + i);
            }
        },
        _ => {},
    }
}

/// A walk with a rejected component in its queue never returns a descriptor,
/// whatever the replies.
pub proof fn law_barred_walk_fails(o: Outcome, replies: Seq<ReplyView>)
    requires
        o.wf(),
        fails(o.request) || (!(o.request is Return) && barred(o.state)),
        !(o.state.pending is Kernel),
    ensures
        !(run(o, replies).request matches RequestView::Return(r) && r is Ok),
    decreases replies.len(),
{
    if replies.len() > 0 && !(o.request is Return) {
        law_next_wf(o.state, replies[0]);
        law_barred_step(o.state, replies[0]);
        law_barred_walk_fails(next(o.state, replies[0]), replies.subrange(1, replies.len() as int));
    }
}

/// Without `ALLOW_PARENT_COMPONENTS`, the walk of a path with `..` among its
/// components never returns a descriptor, whatever the replies: it fails with
/// `EXDEV` when it comes to the `..`, if it has not failed before.
pub proof fn law_parent_never_passes(
    host: Host,
    base: i32,
    path: Seq<u8>,
    flags: LookupFlags,
    final_flags: i32,
    mode: u32,
    sysconf_symloop_max: i64,
    replies: Seq<ReplyView>,
)
    requires
        !flags.has(LookupFlags::ALLOW_PARENT_COMPONENTS),
        has_parent(components(path)),
    ensures
        ({
            let first = start(
                initial(host, base, path, flags, final_flags, mode, sysconf_symloop_max),
                path,
            );
            !(run(first, replies).request matches RequestView::Return(r) && r is Ok)
        }),
{
    let s = initial(host, base, path, flags, final_flags, mode, sysconf_symloop_max);
    let first = start(s, path);
    law_start_wf(host, base, path, flags, final_flags, mode, sysconf_symloop_max);
    let i = choose|i: int| 0 <= i < components(path).len() && components(path)[i] == Token::Parent;
    assert(barred_at(s, i));
    if !path.contains(0u8) && !s.policy().use_kernel_fastpath {
        if s.policy().check_dev {
            assert(barred_at(first.state, i));
        } else {
            lemma_advance_barred(s, i);
        }
    }
    law_barred_walk_fails(first, replies);
}

/// Without `IN_ROOT`, the step-by-step walk of an absolute path never returns
/// a descriptor, whatever the replies.
pub proof fn law_root_never_passes(
    host: Host,
    base: i32,
    path: Seq<u8>,
    flags: LookupFlags,
    final_flags: i32,
    mode: u32,
    sysconf_symloop_max: i64,
    replies: Seq<ReplyView>,
)
    requires
        !flags.has(LookupFlags::IN_ROOT),
        is_absolute(path),
        !flags.spec_policy(host).use_kernel_fastpath,
    ensures
        ({
            let first = start(
                initial(host, base, path, flags, final_flags, mode, sysconf_symloop_max),
                path,
            );
            !(run(first, replies).request matches RequestView::Return(r) && r is Ok)
        }),
{
    let s = initial(host, base, path, flags, final_flags, mode, sysconf_symloop_max);
    let first = start(s, path);
    law_start_wf(host, base, path, flags, final_flags, mode, sysconf_symloop_max);
    law_root_is_first(path);
    assert(barred_at(s, 0));
    if !path.contains(0u8) {
        if s.policy().check_dev {
            assert(barred_at(first.state, 0));
        } else {
            lemma_advance_barred(s, 0);
        }
    }
    law_barred_walk_fails(first, replies);
}

} // verus!
