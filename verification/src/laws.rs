//! What holds of every walk.
//!
//! The laws are stated over the functions that say what a walk does
//! ([`crate::open::start`] and [`crate::open::next`]), for every path, every
//! set of flags and every sequence of replies. This module holds what the
//! others build on: what holds of every state and of every step.

pub mod bound;
pub mod confined;
pub mod descriptors;
pub mod names;
pub mod operations;
pub mod options;
pub mod policy;

use vstd::prelude::*;
use crate::flags::LookupFlags;
use crate::host::Host;
use crate::open::{
    advance,
    descend,
    follow,
    initial,
    next,
    start,
    Outcome,
    Pending,
    ReplyView,
    RequestView,
    State,
};
use crate::path::{components, ends_with_slash, has_parent, Token};

verus! {

impl State {
    /// What holds of the state of every walk: it has followed no more
    /// symbolic links than it may, and none under `NO_SYMLINKS`; it keeps
    /// parents only below the base directory and only while `..` is accepted;
    /// and it duplicates the base directory only with nothing left to walk.
    pub open spec fn inv(self) -> bool {
        &&& self.seen <= self.limit
        &&& self.flags.has(LookupFlags::NO_SYMLINKS) ==> self.limit == 0
        &&& self.current is None ==> self.parents.len() == 0
        &&& !self.policy().allow_parent ==> self.parents.len() == 0
        &&& self.pending is Nothing ==> self.current is None
        &&& self.pending is Duplicate ==> self.queue.len() == 0 && self.current is None
        &&& self.pending is Kernel ==> self.current is None && self.policy().use_kernel_fastpath
        &&& self.pending is Kernel && !self.policy().allow_parent ==> !has_parent(self.queue)
        &&& self.pending is BaseDevice ==> self.current is None
    }
}

impl Outcome {
    /// Whether the request that is handed out is the one that the state waits
    /// for.
    pub open spec fn coherent(self) -> bool {
        match (self.request, self.state.pending) {
            (RequestView::Return(_), Pending::Nothing) => true,
            (RequestView::Openat2 { dirfd, .. }, Pending::Kernel) => dirfd == self.state.base,
            (RequestView::Fstat { fd }, Pending::BaseDevice) => fd == self.state.base,
            (RequestView::Fstat { fd }, Pending::Device { fd: opened }) => fd == opened,
            (RequestView::Openat { dirfd, name, flags, mode }, Pending::Open { name: waiting }) => {
                &&& dirfd == self.state.dirfd()
                &&& name == waiting
                &&& flags == self.state.open_flags()
                &&& mode == self.state.mode
            },
            (RequestView::Readlinkat { dirfd, name }, Pending::Link { name: waiting, .. }) => {
                dirfd == self.state.dirfd() && name == waiting
            },
            (RequestView::Dup { fd }, Pending::Duplicate) => fd == self.state.base,
            _ => false,
        }
    }

    /// What holds of every step of a walk.
    pub open spec fn wf(self) -> bool {
        self.state.inv() && self.coherent()
    }
}

/// A state in which the walk waits for nothing and may take components off the
/// queue.
spec fn walking(s: State) -> bool {
    &&& s.seen <= s.limit
    &&& s.flags.has(LookupFlags::NO_SYMLINKS) ==> s.limit == 0
    &&& s.current is None ==> s.parents.len() == 0
    &&& !s.policy().allow_parent ==> s.parents.len() == 0
}

/// Taking components off the queue keeps a walk well formed.
proof fn lemma_advance_wf(s: State)
    requires
        walking(s),
    ensures
        advance(s).wf(),
        advance(s).state.base == s.base,
        advance(s).state.flags == s.flags,
        advance(s).state.host == s.host,
        advance(s).state.limit == s.limit,
        advance(s).state.seen == s.seen,
    decreases s.queue.len(),
{
    if s.queue.len() > 0 {
        let rest = s.queue.subrange(1, s.queue.len() as int);
        match s.queue[0] {
            Token::Root => {
                if s.policy().allow_absolute {
                    lemma_advance_wf(State { queue: rest, current: None, parents: Seq::empty(), ..s });
                }
            },
            Token::Parent => {
                if s.policy().allow_parent {
                    match s.current {
                        Some(fd) => {
                            if s.parents.len() > 0 {
                                lemma_advance_wf(
                                    State {
                                        queue: rest,
                                        current: Some(s.parents.last()),
                                        parents: s.parents.drop_last(),
                                        ..s
                                    },
                                );
                            } else {
                                lemma_advance_wf(State { queue: rest, current: None, ..s });
                            }
                        },
                        None => {
                            if s.policy().allow_absolute {
                                lemma_advance_wf(State { queue: rest, ..s });
                            }
                        },
                    }
                }
            },
            Token::Name(name) => {},
        }
    }
}

/// Going on from an opened file keeps a walk well formed.
proof fn lemma_descend_wf(s: State, fd: i32)
    requires
        walking(s),
        !(s.pending is Device),
    ensures
        descend(s, fd).wf(),
        descend(s, fd).state.base == s.base,
        descend(s, fd).state.flags == s.flags,
        descend(s, fd).state.host == s.host,
        descend(s, fd).state.limit == s.limit,
{
    if s.queue.len() > 0 {
        if s.policy().allow_parent {
            lemma_advance_wf(State { current: Some(fd), parents: s.dirs(), ..s });
        } else {
            lemma_advance_wf(State { current: Some(fd), parents: Seq::empty(), ..s });
        }
    }
}

/// Following a symbolic link keeps a walk well formed.
proof fn lemma_follow_wf(s: State, target: Seq<u8>)
    requires
        walking(s),
    ensures
        follow(s, target).wf(),
        follow(s, target).state.base == s.base,
        follow(s, target).state.flags == s.flags,
        follow(s, target).state.host == s.host,
        follow(s, target).state.limit == s.limit,
{
    if s.seen < s.limit && !target.contains(0u8) {
        let followed = State {
            seen: (s.seen + 1) as usize,
            final_flags: if s.queue.len() == 0 && ends_with_slash(target) {
                s.final_flags | s.host.open.o_directory
            } else {
                s.final_flags
            },
            queue: components(target) + s.queue,
            ..s
        };
        lemma_advance_wf(followed);
    }
}

/// The first step of a walk is well formed.
pub proof fn law_start_wf(
    host: Host,
    base: i32,
    path: Seq<u8>,
    flags: LookupFlags,
    final_flags: i32,
    mode: u32,
    sysconf_symloop_max: i64,
)
    ensures
        ({
            let s = initial(host, base, path, flags, final_flags, mode, sysconf_symloop_max);
            &&& start(s, path).wf()
            &&& start(s, path).state.base == base
            &&& start(s, path).state.flags == flags
            &&& start(s, path).state.host == host
            &&& start(s, path).state.limit == s.limit
        }),
{
    let s = initial(host, base, path, flags, final_flags, mode, sysconf_symloop_max);
    assert(walking(s));
    lemma_advance_wf(s);
}

/// Every step of a walk is well formed: what holds of the state before a
/// reply holds of it after.
pub proof fn law_next_wf(s: State, reply: ReplyView)
    requires
        s.inv(),
    ensures
        next(s, reply).wf(),
        next(s, reply).state.base == s.base,
        next(s, reply).state.flags == s.flags,
        next(s, reply).state.host == s.host,
        next(s, reply).state.limit == s.limit,
{
    let idle = State { pending: Pending::Nothing, ..s };
    assert(walking(s));
    match (s.pending, reply) {
        (Pending::Kernel, ReplyView::Errno(e)) => {
            lemma_advance_wf(idle);
        },
        (Pending::BaseDevice, ReplyView::Stat(id)) => {
            lemma_advance_wf(State { base_dev: id.dev, ..idle });
        },
        (Pending::Open { name }, ReplyView::Fd(fd)) => {
            lemma_descend_wf(idle, fd);
        },
        (Pending::Device { fd }, ReplyView::Stat(id)) => {
            lemma_descend_wf(State { pending: Pending::Nothing, ..idle }, fd);
        },
        (Pending::Link { name, errno, raw }, ReplyView::Target(target)) => {
            lemma_follow_wf(idle, target);
        },
        _ => {},
    }
}

/// The step that a walk has come to once it has taken `replies` in turn after
/// the step `o`. A walk that is over takes no reply.
pub open spec fn run(o: Outcome, replies: Seq<ReplyView>) -> Outcome
    decreases replies.len(),
{
    if replies.len() == 0 || o.request is Return {
        o
    } else {
        run(next(o.state, replies[0]), replies.subrange(1, replies.len() as int))
    }
}

/// Every step of a walk is well formed, whatever the replies.
pub proof fn law_run_wf(o: Outcome, replies: Seq<ReplyView>)
    requires
        o.wf(),
    ensures
        run(o, replies).wf(),
        run(o, replies).state.base == o.state.base,
        run(o, replies).state.flags == o.state.flags,
        run(o, replies).state.host == o.state.host,
        run(o, replies).state.limit == o.state.limit,
    decreases replies.len(),
{
    if replies.len() > 0 && !(o.request is Return) {
        law_next_wf(o.state, replies[0]);
        law_run_wf(next(o.state, replies[0]), replies.subrange(1, replies.len() as int));
    }
}

} // verus!
