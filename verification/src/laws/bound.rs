//! How many files a walk opens at most.

use vstd::prelude::*;
use crate::flags::LookupFlags;
use crate::host::Host;
use crate::laws::{law_next_wf, law_start_wf};
use crate::open::{advance, initial, next, start, Outcome, Pending, ReplyView, RequestView, State};
use crate::path::{components, ends_with_slash, Token};

verus! {

/// Whether the request opens a file: by `openat`, or by `openat2`.
pub open spec fn is_open(request: RequestView) -> bool {
    request is Openat || request is Openat2
}

/// How many times a walk opens a file from the step `o` on, while it takes
/// `replies` in turn.
pub open spec fn opens(o: Outcome, replies: Seq<ReplyView>) -> nat
    decreases replies.len(),
{
    let here: nat = if is_open(o.request) {
        1
    } else {
        0
    };
    if replies.len() == 0 || o.request is Return {
        here
    } else {
        here + opens(next(o.state, replies[0]), replies.subrange(1, replies.len() as int))
    }
}

/// Whether every target among the replies has at most `m` components.
pub open spec fn targets_within(replies: Seq<ReplyView>, m: nat) -> bool {
    forall|i: int|
        0 <= i < replies.len() ==> (#[trigger] replies[i] matches ReplyView::Target(t)
            ==> components(t).len() <= m)
}

/// How many names a walk can still come to: those in its queue, and `m` for
/// each symbolic link that it may still follow.
pub open spec fn budget(s: State, m: nat) -> int {
    s.queue.len() + (s.limit - s.seen) * m
}

/// Taking components off the queue does not raise the budget, and an open
/// takes one from it.
proof fn lemma_advance_budget(s: State, m: nat)
    ensures
        (if advance(s).request is Openat { 1int } else { 0int }) + budget(advance(s).state, m)
            <= budget(s, m),
        !(advance(s).request is Openat2),
    decreases s.queue.len(),
{
    if s.queue.len() > 0 {
        let rest = s.queue.subrange(1, s.queue.len() as int);
        match s.queue[0] {
            Token::Root => {
                if s.policy().allow_absolute {
                    lemma_advance_budget(
                        State { queue: rest, current: None, parents: Seq::empty(), ..s },
                        m,
                    );
                }
            },
            Token::Parent => {
                if s.policy().allow_parent {
                    match s.current {
                        Some(fd) => {
                            if s.parents.len() > 0 {
                                lemma_advance_budget(
                                    State {
                                        queue: rest,
                                        current: Some(s.parents.last()),
                                        parents: s.parents.drop_last(),
                                        ..s
                                    },
                                    m,
                                );
                            } else {
                                lemma_advance_budget(State { queue: rest, current: None, ..s }, m);
                            }
                        },
                        None => {
                            if s.policy().allow_absolute {
                                lemma_advance_budget(State { queue: rest, ..s }, m);
                            }
                        },
                    }
                }
            },
            Token::Name(name) => {},
        }
    }
}

/// No step raises the budget, and an open takes one from it.
proof fn lemma_next_budget(s: State, reply: ReplyView, m: nat)
    requires
        s.inv(),
        reply matches ReplyView::Target(t) ==> components(t).len() <= m,
    ensures
        (if is_open(next(s, reply).request) { 1int } else { 0int }) + budget(next(s, reply).state, m)
            <= budget(s, m),
{
    let idle = State { pending: Pending::Nothing, ..s };
    match (s.pending, reply) {
        (Pending::Kernel, ReplyView::Errno(e)) => {
            lemma_advance_budget(idle, m);
        },
        (Pending::BaseDevice, ReplyView::Stat(id)) => {
            lemma_advance_budget(State { base_dev: id.dev, ..idle }, m);
        },
        (Pending::Open { name }, ReplyView::Fd(fd)) => {
            lemma_advance_budget(State { current: Some(fd), parents: s.dirs(), ..idle }, m);
            lemma_advance_budget(State { current: Some(fd), parents: Seq::empty(), ..idle }, m);
        },
        (Pending::Device { fd }, ReplyView::Stat(id)) => {
            let u = idle;
            lemma_advance_budget(State { current: Some(fd), parents: u.dirs(), ..u }, m);
            lemma_advance_budget(State { current: Some(fd), parents: Seq::empty(), ..u }, m);
        },
        (Pending::Link { name, errno, raw }, ReplyView::Target(target)) => {
            if s.seen < s.limit {
                let followed = State {
                    seen: (s.seen + 1) as usize,
                    final_flags: if s.queue.len() == 0 && ends_with_slash(target) {
                        s.final_flags | s.host.open.o_directory
                    } else {
                        s.final_flags
                    },
                    ..idle
                };
                let t = State { queue: components(target) + s.queue, ..followed };
                lemma_advance_budget(t, m);
                assert((s.limit - s.seen) * m == (s.limit - (s.seen + 1)) * m + m)
                    by (nonlinear_arith);
                assert(budget(t, m) <= budget(s, m));
                assert(budget(followed, m) <= budget(s, m)) by (nonlinear_arith)
                    requires
                        budget(followed, m) == s.queue.len() + (s.limit - (s.seen + 1)) * m,
                        budget(s, m) == s.queue.len() + (s.limit - s.seen) * m,
                        s.seen < s.limit,
                        m >= 0,
                ;
            }
        },
        _ => {},
    }
}

/// A walk opens no more files than its budget holds.
proof fn lemma_opens_within_budget(o: Outcome, replies: Seq<ReplyView>, m: nat)
    requires
        o.wf(),
        targets_within(replies, m),
    ensures
        opens(o, replies) <= (if is_open(o.request) { 1int } else { 0int }) + budget(o.state, m),
    decreases replies.len(),
{
    assert(budget(o.state, m) >= 0) by (nonlinear_arith)
        requires
            budget(o.state, m) == o.state.queue.len() + (o.state.limit - o.state.seen) * m,
            o.state.seen <= o.state.limit,
            m >= 0,
    ;
    if replies.len() > 0 && !(o.request is Return) {
        let rest = replies.subrange(1, replies.len() as int);
        assert(targets_within(rest, m)) by {
            assert forall|i: int| 0 <= i < rest.len() implies (#[trigger] rest[i] matches ReplyView::Target(
                t,
            ) ==> components(t).len() <= m) by {
                assert(rest[i] == replies[i + 1]);
            }
        }
        assert(replies[0] matches ReplyView::Target(t) ==> components(t).len() <= m);
        law_next_wf(o.state, replies[0]);
        lemma_next_budget(o.state, replies[0], m);
        lemma_opens_within_budget(next(o.state, replies[0]), rest, m);
    }
}

/// A walk opens a file at most once for each component of the path and of the
/// targets of the symbolic links that it follows, and once more where it asks
/// the kernel first: with targets of at most `m` components each, that is at
/// most the number of components of the path, plus `m` times the limit on
/// symbolic links, plus one.
pub proof fn law_opens_bounded(
    host: Host,
    base: i32,
    path: Seq<u8>,
    flags: LookupFlags,
    final_flags: i32,
    mode: u32,
    sysconf_symloop_max: i64,
    replies: Seq<ReplyView>,
    m: nat,
)
    requires
        targets_within(replies, m),
    ensures
        ({
            let s = initial(host, base, path, flags, final_flags, mode, sysconf_symloop_max);
            opens(start(s, path), replies) <= components(path).len() + s.limit * m + 1
        }),
{
    let s = initial(host, base, path, flags, final_flags, mode, sysconf_symloop_max);
    law_start_wf(host, base, path, flags, final_flags, mode, sysconf_symloop_max);
    lemma_opens_within_budget(start(s, path), replies, m);
    lemma_advance_budget(s, m);
    assert(budget(s, m) == components(path).len() + s.limit * m);
}

} // verus!
