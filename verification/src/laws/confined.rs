//! Every walk stays below its base directory.

use vstd::prelude::*;
use crate::flags::LookupFlags;
use crate::host::Host;
use crate::laws::{law_next_wf, law_start_wf};
use crate::open::{advance, initial, next, start, Outcome, Pending, ReplyView, RequestView, State};
use crate::path::{components, ends_with_slash, Token};

verus! {

/// Whether every descriptor that the walk holds is among `given`.
pub open spec fn owns(s: State, given: Set<i32>) -> bool {
    &&& s.current matches Some(fd) ==> given.contains(fd)
    &&& forall|i: int| 0 <= i < s.parents.len() ==> given.contains(#[trigger] s.parents[i])
    &&& s.pending matches Pending::Device { fd } ==> given.contains(fd)
}

/// Whether a request stays below the base directory: it names the base
/// directory, or a descriptor among `given`; and a descriptor that it returns
/// is among `given`.
pub open spec fn below_base(request: RequestView, base: i32, given: Set<i32>) -> bool {
    match request {
        RequestView::Openat2 { dirfd, .. } => dirfd == base,
        RequestView::Fstat { fd } => fd == base || given.contains(fd),
        RequestView::Openat { dirfd, .. } => dirfd == base || given.contains(dirfd),
        RequestView::Readlinkat { dirfd, .. } => dirfd == base || given.contains(dirfd),
        RequestView::Dup { fd } => fd == base,
        RequestView::Return(Ok(fd)) => given.contains(fd),
        RequestView::Return(Err(_)) => true,
    }
}

/// The descriptors that a walk has been given once it has taken `reply`: a
/// descriptor in reply to `openat2`, to `openat` or to the duplication of the
/// base directory is one more.
pub open spec fn grant(s: State, reply: ReplyView, given: Set<i32>) -> Set<i32> {
    match (s.pending, reply) {
        (Pending::Kernel, ReplyView::Fd(fd)) => given.insert(fd),
        (Pending::Open { .. }, ReplyView::Fd(fd)) => given.insert(fd),
        (Pending::Duplicate, ReplyView::Fd(fd)) => given.insert(fd),
        _ => given,
    }
}

/// Whether a walk stays below the base directory from the step `o` on, while
/// it takes `replies` in turn, having been given the descriptors `given`.
pub open spec fn confined(o: Outcome, replies: Seq<ReplyView>, given: Set<i32>) -> bool
    decreases replies.len(),
{
    &&& below_base(o.request, o.state.base, given)
    &&& replies.len() > 0 && !(o.request is Return) ==> confined(
        next(o.state, replies[0]),
        replies.subrange(1, replies.len() as int),
        grant(o.state, replies[0], given),
    )
}

/// Taking components off the queue asks only for what lies below the base
/// directory.
proof fn lemma_advance_confined(s: State, given: Set<i32>)
    requires
        owns(s, given),
        !(s.pending is Device),
    ensures
        owns(advance(s).state, given),
        below_base(advance(s).request, s.base, given),
    decreases s.queue.len(),
{
    if s.queue.len() > 0 {
        let rest = s.queue.subrange(1, s.queue.len() as int);
        match s.queue[0] {
            Token::Root => {
                if s.policy().allow_absolute {
                    lemma_advance_confined(
                        State { queue: rest, current: None, parents: Seq::empty(), ..s },
                        given,
                    );
                }
            },
            Token::Parent => {
                if s.policy().allow_parent {
                    match s.current {
                        Some(fd) => {
                            if s.parents.len() > 0 {
                                lemma_advance_confined(
                                    State {
                                        queue: rest,
                                        current: Some(s.parents.last()),
                                        parents: s.parents.drop_last(),
                                        ..s
                                    },
                                    given,
                                );
                            } else {
                                lemma_advance_confined(State { queue: rest, current: None, ..s }, given);
                            }
                        },
                        None => {
                            if s.policy().allow_absolute {
                                lemma_advance_confined(State { queue: rest, ..s }, given);
                            }
                        },
                    }
                }
            },
            Token::Name(name) => {},
        }
    }
}

/// Every step asks only for what lies below the base directory.
proof fn lemma_next_confined(s: State, reply: ReplyView, given: Set<i32>)
    requires
        owns(s, given),
    ensures
        owns(next(s, reply).state, grant(s, reply, given)),
        below_base(next(s, reply).request, s.base, grant(s, reply, given)),
{
    let idle = State { pending: Pending::Nothing, ..s };
    let more = grant(s, reply, given);
    match (s.pending, reply) {
        (Pending::Kernel, ReplyView::Errno(e)) => {
            lemma_advance_confined(idle, given);
        },
        (Pending::BaseDevice, ReplyView::Stat(id)) => {
            lemma_advance_confined(State { base_dev: id.dev, ..idle }, given);
        },
        (Pending::Open { name }, ReplyView::Fd(fd)) => {
            if !s.policy().check_dev && s.queue.len() > 0 {
                if s.policy().allow_parent {
                    lemma_advance_confined(State { current: Some(fd), parents: s.dirs(), ..idle }, more);
                } else {
                    lemma_advance_confined(
                        State { current: Some(fd), parents: Seq::empty(), ..idle },
                        more,
                    );
                }
            }
        },
        (Pending::Device { fd }, ReplyView::Stat(id)) => {
            let u = idle;
            if id.dev == s.base_dev && s.queue.len() > 0 {
                if s.policy().allow_parent {
                    lemma_advance_confined(State { current: Some(fd), parents: u.dirs(), ..u }, more);
                } else {
                    lemma_advance_confined(
                        State { current: Some(fd), parents: Seq::empty(), ..u },
                        more,
                    );
                }
            }
        },
        (Pending::Link { name, errno, raw }, ReplyView::Target(target)) => {
            if s.seen < s.limit && !target.contains(0u8) {
                let t = State {
                    seen: (s.seen + 1) as usize,
                    final_flags: if s.queue.len() == 0 && ends_with_slash(target) {
                        s.final_flags | s.host.open.o_directory
                    } else {
                        s.final_flags
                    },
                    queue: components(target) + s.queue,
                    ..idle
                };
                lemma_advance_confined(t, more);
            }
        },
        _ => {},
    }
}

/// A walk that owns only what it was given stays below the base directory.
proof fn lemma_run_confined(o: Outcome, replies: Seq<ReplyView>, given: Set<i32>)
    requires
        o.wf(),
        owns(o.state, given),
        below_base(o.request, o.state.base, given),
    ensures
        confined(o, replies, given),
    decreases replies.len(),
{
    if replies.len() > 0 && !(o.request is Return) {
        law_next_wf(o.state, replies[0]);
        lemma_next_confined(o.state, replies[0], given);
        lemma_run_confined(
            next(o.state, replies[0]),
            replies.subrange(1, replies.len() as int),
            grant(o.state, replies[0], given),
        );
    }
}

/// Every walk stays below the base directory, whatever the replies: each
/// `openat` and `readlinkat` is made on the base directory or on a descriptor
/// that an earlier open of the walk returned, so on a descriptor that was
/// opened, step by step, from the base directory; `openat2` and the
/// duplication are made on the base directory itself; and a descriptor that
/// the walk returns is one that such a call returned. The walk begins with no
/// descriptor given, so its first `openat` is made on the base directory.
pub proof fn law_confined(
    host: Host,
    base: i32,
    path: Seq<u8>,
    flags: LookupFlags,
    final_flags: i32,
    mode: u32,
    sysconf_symloop_max: i64,
    replies: Seq<ReplyView>,
)
    ensures
        confined(
            start(initial(host, base, path, flags, final_flags, mode, sysconf_symloop_max), path),
            replies,
            Set::empty(),
        ),
{
    let s = initial(host, base, path, flags, final_flags, mode, sysconf_symloop_max);
    law_start_wf(host, base, path, flags, final_flags, mode, sysconf_symloop_max);
    lemma_advance_confined(s, Set::empty());
    lemma_run_confined(start(s, path), replies, Set::empty());
}

/// With no name to open, the walk stays at the base directory: it opens
/// nothing, asks for a duplicate of the base directory, and returns what it
/// is given.
pub proof fn law_nothing_to_walk(s: State, fd: i32)
    requires
        s.current is None,
        s.parents.len() == 0,
        s.queue.len() == 0,
        !(s.pending is Device),
    ensures
        advance(s).request == (RequestView::Dup { fd: s.base }),
        advance(s).close.len() == 0,
        next(advance(s).state, ReplyView::Fd(fd)).request == RequestView::Return(Ok(fd)),
        next(advance(s).state, ReplyView::Fd(fd)).close.len() == 0,
{
}

/// Resolving `.`, or under `IN_ROOT` the path `/`, step by step opens nothing
/// and ends with a duplicate of the base directory: under `NO_XDEV` once the
/// device of the base directory is known, else at once. The same holds of
/// every path without a name in it.
pub proof fn law_dot_is_base(
    host: Host,
    base: i32,
    path: Seq<u8>,
    flags: LookupFlags,
    final_flags: i32,
    mode: u32,
    sysconf_symloop_max: i64,
    id: crate::util::FileId,
    fd: i32,
)
    requires
        !path.contains(0u8),
        components(path).len() == 0 || (flags.has(LookupFlags::IN_ROOT) && components(path)
            =~= seq![Token::Root]),
        !flags.spec_policy(host).use_kernel_fastpath,
    ensures
        ({
            let first = start(
                initial(host, base, path, flags, final_flags, mode, sysconf_symloop_max),
                path,
            );
            let asked = if flags.has(LookupFlags::NO_XDEV) {
                next(first.state, ReplyView::Stat(id))
            } else {
                first
            };
            &&& flags.has(LookupFlags::NO_XDEV) ==> first.request == (RequestView::Fstat { fd: base })
            &&& asked.request == (RequestView::Dup { fd: base })
            &&& next(asked.state, ReplyView::Fd(fd)).request == RequestView::Return(Ok(fd))
        }),
{
    let s = initial(host, base, path, flags, final_flags, mode, sysconf_symloop_max);
    let t = State { base_dev: id.dev, ..s };
    if s.queue.len() > 0 {
        let rest = s.queue.subrange(1, s.queue.len() as int);
        assert(rest =~= Seq::empty());
        let u = State { queue: rest, current: None, parents: Seq::empty(), ..s };
        assert(advance(u).request == (RequestView::Dup { fd: base }));
        let v = State { queue: rest, current: None, parents: Seq::empty(), ..t };
        assert(advance(v).request == (RequestView::Dup { fd: base }));
    }
}

} // verus!
