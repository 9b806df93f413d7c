//! A walk asks the kernel for one plain name at a time.

use vstd::prelude::*;
use crate::flags::LookupFlags;
use crate::host::Host;
use crate::laws::run;
use crate::open::{advance, initial, next, start, Outcome, Pending, ReplyView, RequestView, State};
use crate::path::{all_plain, components, ends_with_slash, law_components_plain, plain, Token};

verus! {

/// Whether every name that a walk has still to open, or waits for, is plain.
pub open spec fn names_plain(s: State) -> bool {
    &&& all_plain(s.queue)
    &&& s.pending matches Pending::Open { name } ==> plain(name)
    &&& s.pending matches Pending::Link { name, .. } ==> plain(name)
}

/// Whether the request names one plain name, where it names one.
pub open spec fn asks_plain(request: RequestView) -> bool {
    match request {
        RequestView::Openat { name, .. } => plain(name),
        RequestView::Readlinkat { name, .. } => plain(name),
        _ => true,
    }
}

/// Taking components off a queue of plain names asks for a plain name.
proof fn lemma_advance_plain(s: State)
    requires
        all_plain(s.queue),
    ensures
        names_plain(advance(s).state),
        asks_plain(advance(s).request),
    decreases s.queue.len(),
{
    if s.queue.len() > 0 {
        let rest = s.queue.subrange(1, s.queue.len() as int);
        assert(all_plain(rest)) by {
            assert forall|i: int| 0 <= i < rest.len() implies (#[trigger] rest[i] matches Token::Name(
                n,
            ) ==> plain(n)) by {
                assert(rest[i] == s.queue[i + 1]);
            }
        }
        match s.queue[0] {
            Token::Root => {
                if s.policy().allow_absolute {
                    lemma_advance_plain(
                        State { queue: rest, current: None, parents: Seq::empty(), ..s },
                    );
                }
            },
            Token::Parent => {
                if s.policy().allow_parent {
                    match s.current {
                        Some(fd) => {
                            if s.parents.len() > 0 {
                                lemma_advance_plain(
                                    State {
                                        queue: rest,
                                        current: Some(s.parents.last()),
                                        parents: s.parents.drop_last(),
                                        ..s
                                    },
                                );
                            } else {
                                lemma_advance_plain(State { queue: rest, current: None, ..s });
                            }
                        },
                        None => {
                            if s.policy().allow_absolute {
                                lemma_advance_plain(State { queue: rest, ..s });
                            }
                        },
                    }
                }
            },
            Token::Name(name) => {},
        }
    }
}

/// Every step of a walk with plain names asks for a plain name.
proof fn lemma_next_plain(s: State, reply: ReplyView)
    requires
        names_plain(s),
    ensures
        names_plain(next(s, reply).state),
        asks_plain(next(s, reply).request),
{
    let idle = State { pending: Pending::Nothing, ..s };
    match (s.pending, reply) {
        (Pending::Kernel, ReplyView::Errno(e)) => {
            lemma_advance_plain(idle);
        },
        (Pending::BaseDevice, ReplyView::Stat(id)) => {
            lemma_advance_plain(State { base_dev: id.dev, ..idle });
        },
        (Pending::Open { name }, ReplyView::Fd(fd)) => {
            lemma_advance_plain(State { current: Some(fd), parents: s.dirs(), ..idle });
            lemma_advance_plain(State { current: Some(fd), parents: Seq::empty(), ..idle });
        },
        (Pending::Device { fd }, ReplyView::Stat(id)) => {
            let u = idle;
            lemma_advance_plain(State { current: Some(fd), parents: u.dirs(), ..u });
            lemma_advance_plain(State { current: Some(fd), parents: Seq::empty(), ..u });
        },
        (Pending::Link { name, errno, raw }, ReplyView::Target(target)) => {
            if s.seen < s.limit && !target.contains(0u8) {
                law_components_plain(target);
                let head = components(target);
                let all = head + s.queue;
                assert(all_plain(all)) by {
                    assert forall|i: int| 0 <= i < all.len() implies (#[trigger] all[i] matches Token::Name(
                        n,
                    ) ==> plain(n)) by {
                        if i < head.len() {
                            assert(all[i] == head[i]);
                        } else {
                            assert(all[i] == s.queue[i - head.len()]);
                        }
                    }
                }
                let t = State {
                    seen: (s.seen + 1) as usize,
                    final_flags: if s.queue.len() == 0 && ends_with_slash(target) {
                        s.final_flags | s.host.open.o_directory
                    } else {
                        s.final_flags
                    },
                    queue: all,
                    ..idle
                };
                lemma_advance_plain(t);
            }
        },
        _ => {},
    }
}

/// Every request of a walk with plain names is for a plain name.
proof fn lemma_run_plain(o: Outcome, replies: Seq<ReplyView>)
    requires
        names_plain(o.state) || o.request is Return,
        asks_plain(o.request),
    ensures
        asks_plain(run(o, replies).request),
    decreases replies.len(),
{
    if replies.len() > 0 && !(o.request is Return) {
        lemma_next_plain(o.state, replies[0]);
        lemma_run_plain(next(o.state, replies[0]), replies.subrange(1, replies.len() as int));
    }
}

/// A walk asks the kernel for one plain name at a time, whatever the path and
/// whatever the replies: every `openat` and every `readlinkat` names one entry
/// of the directory it is made on, never `.` or `..`, never a path with a
/// slash. With `O_NOFOLLOW` on every `openat`, no call of a walk can take the
/// kernel out of the directory it is made on.
pub proof fn law_one_name_at_a_time(
    host: Host,
    base: i32,
    path: Seq<u8>,
    flags: LookupFlags,
    final_flags: i32,
    mode: u32,
    sysconf_symloop_max: i64,
    replies: Seq<ReplyView>,
)
    ensures
        ({
            let first = start(
                initial(host, base, path, flags, final_flags, mode, sysconf_symloop_max),
                path,
            );
            asks_plain(run(first, replies).request)
        }),
{
    let s = initial(host, base, path, flags, final_flags, mode, sysconf_symloop_max);
    let first = start(s, path);
    if !path.contains(0u8) {
        law_components_plain(path);
        lemma_advance_plain(s);
    }
    lemma_run_plain(first, replies);
}

} // verus!
