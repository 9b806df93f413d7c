//! No walk leaks a descriptor.

use vstd::prelude::*;
use crate::flags::LookupFlags;
use crate::host::Host;
use crate::laws::{law_run_wf, law_start_wf, run};
use crate::open::{advance, descend, initial, next, start, Outcome, Pending, ReplyView, RequestView, State};
use crate::path::{components, ends_with_slash, Token};

verus! {

/// How many times the descriptor `fd` is among `q`.
pub open spec fn count(q: Seq<i32>, fd: i32) -> nat
    decreases q.len(),
{
    if q.len() == 0 {
        0
    } else {
        count(q.drop_last(), fd) + one(q.last() == fd)
    }
}

/// One where `hit` holds, else none.
pub open spec fn one(hit: bool) -> nat {
    if hit {
        1
    } else {
        0
    }
}

/// Whether the request hands the descriptor `fd` to the caller as the result
/// of the walk.
pub open spec fn hands_out(request: RequestView, fd: i32) -> bool {
    request == RequestView::Return(Ok(fd))
}

/// Whether the reply hands the descriptor `fd` to a walk that waits for one.
pub open spec fn receives(s: State, reply: ReplyView, fd: i32) -> bool {
    &&& reply == ReplyView::Fd(fd)
    &&& (s.pending is Kernel || s.pending is Open || s.pending is Duplicate)
}

/// One more descriptor behind the others counts once more where it is `fd`.
pub proof fn lemma_count_push(q: Seq<i32>, x: i32, fd: i32)
    ensures
        count(q.push(x), fd) == count(q, fd) + one(x == fd),
{
    assert(q.push(x).drop_last() =~= q);
}

/// The count over two sequences, one behind the other, is the sum of both.
pub proof fn lemma_count_concat(a: Seq<i32>, b: Seq<i32>, fd: i32)
    ensures
        count(a + b, fd) == count(a, fd) + count(b, fd),
    decreases b.len(),
{
    if b.len() == 0 {
        assert(a + b =~= a);
    } else {
        assert((a + b).drop_last() =~= a + b.drop_last());
        lemma_count_concat(a, b.drop_last(), fd);
    }
}

/// What a walk holds, counted by its parts.
proof fn lemma_count_dirs(s: State, fd: i32)
    ensures
        count(s.dirs(), fd) == count(s.parents, fd) + one(s.current == Some(fd)),
        count(s.held(), fd) == count(s.dirs(), fd) + one(s.pending == (Pending::Device { fd })),
        count(Seq::<i32>::empty(), fd) == 0,
        count(seq![fd], fd) == 1,
{
    match s.current {
        Some(c) => {
            lemma_count_push(s.parents, c, fd);
        },
        None => {},
    }
    match s.pending {
        Pending::Device { fd: opened } => {
            lemma_count_push(s.dirs(), opened, fd);
        },
        _ => {},
    }
    lemma_count_push(Seq::<i32>::empty(), fd, fd);
    assert(Seq::<i32>::empty().push(fd) =~= seq![fd]);
}

/// Taking components off the queue loses no descriptor.
proof fn lemma_advance_keeps(s: State, fd: i32)
    requires
        !(s.pending is Device),
    ensures
        count(advance(s).state.held(), fd) + count(advance(s).close, fd) + one(
            hands_out(advance(s).request, fd),
        ) == count(s.held(), fd),
    decreases s.queue.len(),
{
    lemma_count_dirs(s, fd);
    lemma_count_dirs(advance(s).state, fd);
    if s.queue.len() > 0 {
        let rest = s.queue.subrange(1, s.queue.len() as int);
        let popped = State { queue: rest, ..s };
        lemma_count_dirs(popped, fd);
        match s.queue[0] {
            Token::Root => {
                if s.policy().allow_absolute {
                    let t = State { queue: rest, current: None, parents: Seq::empty(), ..s };
                    lemma_advance_keeps(t, fd);
                    lemma_count_dirs(t, fd);
                    lemma_count_concat(s.dirs(), advance(t).close, fd);
                }
            },
            Token::Parent => {
                if s.policy().allow_parent {
                    match s.current {
                        Some(c) => {
                            let t = if s.parents.len() > 0 {
                                State {
                                    queue: rest,
                                    current: Some(s.parents.last()),
                                    parents: s.parents.drop_last(),
                                    ..s
                                }
                            } else {
                                State { queue: rest, current: None, ..s }
                            };
                            lemma_advance_keeps(t, fd);
                            lemma_count_dirs(t, fd);
                            lemma_count_concat(seq![c], advance(t).close, fd);
                            lemma_count_push(Seq::<i32>::empty(), c, fd);
                            assert(Seq::<i32>::empty().push(c) =~= seq![c]);
                        },
                        None => {
                            if s.policy().allow_absolute {
                                lemma_advance_keeps(popped, fd);
                            }
                        },
                    }
                }
            },
            Token::Name(name) => {},
        }
    }
}

/// Going on from an opened file loses no descriptor.
proof fn lemma_descend_keeps(s: State, opened: i32, fd: i32)
    requires
        !(s.pending is Device),
    ensures
        count(descend(s, opened).state.held(), fd) + count(descend(s, opened).close, fd) + one(
            hands_out(descend(s, opened).request, fd),
        ) == count(s.held(), fd) + one(opened == fd),
{
    lemma_count_dirs(s, fd);
    lemma_count_dirs(descend(s, opened).state, fd);
    if s.queue.len() > 0 {
        if s.policy().allow_parent {
            let t = State { current: Some(opened), parents: s.dirs(), ..s };
            lemma_advance_keeps(t, fd);
            lemma_count_dirs(t, fd);
        } else {
            let t = State { current: Some(opened), parents: Seq::empty(), ..s };
            lemma_advance_keeps(t, fd);
            lemma_count_dirs(t, fd);
            lemma_count_concat(s.dirs(), advance(t).close, fd);
        }
    }
}

/// No step of a walk loses a descriptor: what the walk holds after the step,
/// what it has closed in the step and what it returns are what it held
/// before and what the reply handed to it.
pub proof fn law_descriptors_kept(s: State, reply: ReplyView, fd: i32)
    ensures
        count(next(s, reply).state.held(), fd) + count(next(s, reply).close, fd) + one(
            hands_out(next(s, reply).request, fd),
        ) == count(s.held(), fd) + one(receives(s, reply, fd)),
{
    let idle = State { pending: Pending::Nothing, ..s };
    lemma_count_dirs(s, fd);
    lemma_count_dirs(next(s, reply).state, fd);
    match (s.pending, reply) {
        (Pending::Kernel, ReplyView::Errno(e)) => {
            lemma_advance_keeps(idle, fd);
        },
        (Pending::BaseDevice, ReplyView::Stat(id)) => {
            let t = State { base_dev: id.dev, ..idle };
            lemma_advance_keeps(t, fd);
            lemma_count_dirs(t, fd);
        },
        (Pending::Open { name }, ReplyView::Fd(opened)) => {
            lemma_descend_keeps(idle, opened, fd);
            lemma_count_push(s.dirs(), opened, fd);
        },
        (Pending::Device { fd: opened }, ReplyView::Stat(id)) => {
            let u = idle;
            lemma_descend_keeps(u, opened, fd);
            lemma_count_dirs(u, fd);
            lemma_count_push(s.dirs(), opened, fd);
        },
        (Pending::Link { name, errno, raw }, ReplyView::Target(target)) => {
            if s.seen < s.limit {
                let followed = State {
                    seen: (s.seen + 1) as usize,
                    final_flags: if s.queue.len() == 0 && ends_with_slash(target) {
                        s.final_flags | s.host.open.o_directory
                    } else {
                        s.final_flags
                    },
                    ..idle
                };
                let t = State { queue: components(target) + s.queue, ..followed };
                lemma_count_dirs(followed, fd);
                lemma_count_dirs(t, fd);
                lemma_advance_keeps(t, fd);
            }
        },
        _ => {},
    }
}

/// How many times the replies hand the descriptor `fd` to a walk, from the
/// step `o` on.
pub open spec fn received(o: Outcome, replies: Seq<ReplyView>, fd: i32) -> nat
    decreases replies.len(),
{
    if replies.len() == 0 || o.request is Return {
        0
    } else {
        one(receives(o.state, replies[0], fd)) + received(
            next(o.state, replies[0]),
            replies.subrange(1, replies.len() as int),
            fd,
        )
    }
}

/// How many times a walk has the descriptor `fd` closed, from the step `o`
/// on, while it takes `replies` in turn.
pub open spec fn closed(o: Outcome, replies: Seq<ReplyView>, fd: i32) -> nat
    decreases replies.len(),
{
    if replies.len() == 0 || o.request is Return {
        count(o.close, fd)
    } else {
        count(o.close, fd) + closed(
            next(o.state, replies[0]),
            replies.subrange(1, replies.len() as int),
            fd,
        )
    }
}

/// No run of a walk loses a descriptor.
proof fn lemma_run_keeps(o: Outcome, replies: Seq<ReplyView>, fd: i32)
    ensures
        count(run(o, replies).state.held(), fd) + closed(o, replies, fd) + one(
            hands_out(run(o, replies).request, fd),
        ) == count(o.state.held(), fd) + count(o.close, fd) + one(hands_out(o.request, fd)) + received(
            o,
            replies,
            fd,
        ),
    decreases replies.len(),
{
    if replies.len() > 0 && !(o.request is Return) {
        law_descriptors_kept(o.state, replies[0], fd);
        lemma_run_keeps(next(o.state, replies[0]), replies.subrange(1, replies.len() as int), fd);
    }
}

/// The first step of a walk holds, closes and returns no descriptor at all:
/// it has been handed none.
pub proof fn law_start_holds_nothing(
    host: Host,
    base: i32,
    path: Seq<u8>,
    flags: LookupFlags,
    final_flags: i32,
    mode: u32,
    sysconf_symloop_max: i64,
    fd: i32,
)
    ensures
        ({
            let first = start(
                initial(host, base, path, flags, final_flags, mode, sysconf_symloop_max),
                path,
            );
            &&& count(first.state.held(), fd) == 0
            &&& count(first.close, fd) == 0
            &&& !hands_out(first.request, fd)
        }),
{
    let s = initial(host, base, path, flags, final_flags, mode, sysconf_symloop_max);
    let first = start(s, path);
    lemma_count_dirs(s, fd);
    lemma_count_dirs(first.state, fd);
    lemma_advance_keeps(s, fd);
}

/// A walk leaks no descriptor: once it is over, every descriptor that the
/// replies have handed to it has been closed or is the one it returns, as
/// many times as it was handed over; and the walk holds none.
pub proof fn law_nothing_leaks(
    host: Host,
    base: i32,
    path: Seq<u8>,
    flags: LookupFlags,
    final_flags: i32,
    mode: u32,
    sysconf_symloop_max: i64,
    replies: Seq<ReplyView>,
    fd: i32,
)
    ensures
        ({
            let first = start(
                initial(host, base, path, flags, final_flags, mode, sysconf_symloop_max),
                path,
            );
            let last = run(first, replies);
            last.request is Return ==> {
                &&& last.state.held().len() == 0
                &&& closed(first, replies, fd) + one(hands_out(last.request, fd)) == received(
                    first,
                    replies,
                    fd,
                )
            }
        }),
{
    let s = initial(host, base, path, flags, final_flags, mode, sysconf_symloop_max);
    let first = start(s, path);
    law_start_wf(host, base, path, flags, final_flags, mode, sysconf_symloop_max);
    law_run_wf(first, replies);
    lemma_run_keeps(first, replies, fd);
    law_start_holds_nothing(host, base, path, flags, final_flags, mode, sysconf_symloop_max, fd);
    let last = run(first, replies);
    if last.request is Return {
        lemma_count_dirs(last.state, fd);
    }
}

} // verus!
