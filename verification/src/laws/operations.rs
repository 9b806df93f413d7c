//! What holds of every operation.

use vstd::prelude::*;
use crate::laws::descriptors::{
    count,
    hands_out,
    law_descriptors_kept,
    law_start_holds_nothing,
    lemma_count_concat,
    lemma_count_push,
    one,
    receives,
};
use crate::laws::{law_next_wf, law_start_wf};
use crate::open::{next, Outcome, ReplyView, RequestView};
use crate::ops::{
    located,
    locate,
    op_next,
    op_start,
    opt_seq,
    route,
    source_dir,
    KindView,
    Located,
    OpOutcome,
    OpState,
    Phase,
    Plan,
};
use crate::inner::{split, Split};

verus! {

impl OpState {
    /// The descriptors that the operation holds: those of its walk; the
    /// directory of the file that is linked or renamed, once it is found;
    /// and the directory that is compared with the base directory.
    pub open spec fn held(self) -> Seq<i32> {
        match self.phase {
            Phase::Walking { walk, name, source } => walk.held() + source_dir(source),
            Phase::StatBase { dir } => seq![dir],
            Phase::StatDir { dir, .. } => seq![dir],
            Phase::Done => Seq::empty(),
        }
    }

    /// Whether the reply hands the descriptor `fd` to the operation: it hands
    /// it to the walk of the operation.
    pub open spec fn receives(self, reply: ReplyView, fd: i32) -> bool {
        self.phase matches Phase::Walking { walk, .. } && receives(walk, reply, fd)
    }
}

impl OpState {
    /// What holds of the state of every operation: what holds of the state
    /// of its walk; and only a link or a rename has a source.
    pub open spec fn inv(self) -> bool {
        self.phase matches Phase::Walking { walk, source, .. } ==> {
            &&& walk.inv()
            &&& source is Some ==> self.plan.is_pair()
        }
    }
}

impl OpOutcome {
    /// What the operation still holds after the step, and what the step has
    /// closed, counted for the descriptor `fd`.
    pub open spec fn accounts(self, fd: i32) -> nat {
        count(self.state.held(), fd) + count(self.close, fd) + count(self.then_close, fd)
    }
}

/// The count of one descriptor, where there is one.
proof fn lemma_count_opt(dir: Option<i32>, fd: i32)
    ensures
        count(opt_seq(dir), fd) == one(dir == Some(fd)),
        count(Seq::<i32>::empty(), fd) == 0,
{
    match dir {
        Some(d) => {
            lemma_count_push(Seq::<i32>::empty(), d, fd);
            assert(Seq::<i32>::empty().push(d) =~= seq![d]);
        },
        None => {},
    }
}

/// The count of the directory of a source.
proof fn lemma_count_source(source: Option<Located>, fd: i32)
    ensures
        count(source_dir(source), fd) == one(source matches Some(l) && l.dir == Some(fd)),
{
    match source {
        Some(l) => {
            lemma_count_opt(l.dir, fd);
        },
        None => {
            lemma_count_opt(None, fd);
        },
    }
}

/// Deciding at the place loses no descriptor.
proof fn lemma_located_keeps(s: Plan, dir: Option<i32>, name: Option<Seq<u8>>, source: Option<Located>, fd: i32)
    requires
        source is Some ==> s.is_pair(),
    ensures
        located(s, dir, name, source).accounts(fd) == one(dir == Some(fd)) + count(
            source_dir(source),
            fd,
        ),
        located(s, dir, name, source).state.inv(),
    decreases
        (if source is None { 1int } else { 0int }),
        0int,
{
    lemma_count_opt(dir, fd);
    lemma_count_source(source, fd);
    let o = located(s, dir, name, source);
    match s.kind {
        KindView::RemoveDir => {
            match (name, dir) {
                (None, Some(d)) => {
                    lemma_count_opt(Some(d), fd);
                },
                _ => {},
            }
        },
        KindView::Hardlink { new_dir, new } => {
            match (source, name) {
                (None, Some(n)) => {
                    lemma_locate_keeps(s, new, Some(Located { dir, name: n }), fd);
                    lemma_count_source(Some(Located { dir, name: n }), fd);
                },
                (Some(src), _) => {
                    lemma_count_opt(src.dir, fd);
                    lemma_count_concat(opt_seq(dir), opt_seq(src.dir), fd);
                },
                _ => {},
            }
        },
        KindView::Rename { new_dir, new } => {
            match (source, name) {
                (None, Some(n)) => {
                    lemma_locate_keeps(s, new, Some(Located { dir, name: n }), fd);
                    lemma_count_source(Some(Located { dir, name: n }), fd);
                },
                (Some(src), _) => {
                    lemma_count_opt(src.dir, fd);
                    lemma_count_concat(opt_seq(dir), opt_seq(src.dir), fd);
                },
                _ => {},
            }
        },
        _ => {},
    }
}

/// Looking for a place loses no descriptor.
proof fn lemma_locate_keeps(s: Plan, path: Seq<u8>, source: Option<Located>, fd: i32)
    requires
        source is Some ==> s.is_pair(),
    ensures
        locate(s, path, source).accounts(fd) == count(source_dir(source), fd),
        locate(s, path, source).state.inv(),
    decreases
        (if source is None { 1int } else { 0int }),
        2int,
{
    lemma_count_source(source, fd);
    lemma_count_opt(None, fd);
    let base = s.base_of(source);
    match split(s.dir.host, path, s.flags) {
        Err(e) => {},
        Ok(Split::Base) => {
            lemma_located_keeps(s, None, None, source, fd);
        },
        Ok(Split::InBase { name }) => {
            lemma_located_keeps(s, None, Some(name), source, fd);
        },
        Ok(Split::InParent { parent, name }) => {
            let o = base.walk(parent, s.flags, base.host.base_dir_flags(), 0);
            law_start_holds_nothing(
                base.host,
                base.fd,
                parent,
                s.flags,
                base.host.base_dir_flags(),
                0,
                base.symloop_max,
                fd,
            );
            law_start_wf(
                base.host,
                base.fd,
                parent,
                s.flags,
                base.host.base_dir_flags(),
                0,
                base.symloop_max,
            );
            lemma_route_keeps(s, o, Some(name), source, fd);
        },
        Ok(Split::Whole { path }) => {
            let o = base.walk(path, s.flags, base.host.base_dir_flags(), 0);
            law_start_holds_nothing(
                base.host,
                base.fd,
                path,
                s.flags,
                base.host.base_dir_flags(),
                0,
                base.symloop_max,
                fd,
            );
            law_start_wf(
                base.host,
                base.fd,
                path,
                s.flags,
                base.host.base_dir_flags(),
                0,
                base.symloop_max,
            );
            lemma_route_keeps(s, o, None, source, fd);
        },
    }
}

/// Taking a step of the walk loses no descriptor.
proof fn lemma_route_keeps(s: Plan, o: Outcome, name: Option<Seq<u8>>, source: Option<Located>, fd: i32)
    requires
        o.wf(),
        source is Some ==> s.is_pair(),
    ensures
        route(s, o, name, source).accounts(fd) == count(o.state.held(), fd) + count(o.close, fd) + one(
            hands_out(o.request, fd),
        ) + count(source_dir(source), fd),
        route(s, o, name, source).state.inv(),
    decreases
        (if source is None { 1int } else { 0int }),
        1int,
{
    lemma_count_source(source, fd);
    lemma_count_opt(None, fd);
    match o.request {
        RequestView::Return(Ok(dir)) => {
            lemma_located_keeps(s, Some(dir), name, source, fd);
            lemma_count_concat(o.close, located(s, Some(dir), name, source).close, fd);
            // A walk that is over holds nothing
            assert(o.state.held() =~= Seq::<i32>::empty());
        },
        RequestView::Return(Err(e)) => {
            lemma_count_concat(o.close, source_dir(source), fd);
            assert(o.state.held() =~= Seq::<i32>::empty());
        },
        _ => {
            lemma_count_concat(o.state.held(), source_dir(source), fd);
        },
    }
}

/// The first step of an operation is well formed, and accounts for no
/// descriptor: the operation has been handed none.
pub proof fn law_op_start_holds_nothing(s: Plan, path: Seq<u8>, fd: i32)
    ensures
        op_start(s, path).state.inv(),
        op_start(s, path).accounts(fd) == 0,
{
    lemma_count_opt(None, fd);
    lemma_count_source(None, fd);
    if s.is_pair() && crate::path::ends_with_parent(path) {
    } else if s.kind is ListDir {
        let o = s.dir.walk(path, s.flags, s.dir.host.base_dir_flags(), 0);
        law_start_holds_nothing(
            s.dir.host,
            s.dir.fd,
            path,
            s.flags,
            s.dir.host.base_dir_flags(),
            0,
            s.dir.symloop_max,
            fd,
        );
        law_start_wf(s.dir.host, s.dir.fd, path, s.flags, s.dir.host.base_dir_flags(), 0, s.dir.symloop_max);
        lemma_route_keeps(s, o, None, None, fd);
    } else {
        lemma_locate_keeps(s, path, None, fd);
    }
}

/// No step of an operation loses a descriptor: what the operation holds
/// after the step and what the step has closed, or will have closed after
/// the call that ends the operation, are what the operation held before and
/// what the reply handed to it. An operation that is over holds nothing, so
/// every descriptor that it was handed is closed in the end.
pub proof fn law_op_descriptors_kept(state: OpState, reply: ReplyView, fd: i32)
    requires
        state.inv(),
    ensures
        op_next(state, reply).state.inv(),
        op_next(state, reply).accounts(fd) == count(state.held(), fd) + one(
            state.receives(reply, fd),
        ),
        op_next(state, reply).state.phase is Done ==> op_next(state, reply).state.held().len() == 0,
{
    lemma_count_opt(None, fd);
    match state.phase {
        Phase::Walking { walk, name, source } => {
            law_next_wf(walk, reply);
            law_descriptors_kept(walk, reply, fd);
            lemma_route_keeps(state.plan, next(walk, reply), name, source, fd);
            lemma_count_concat(walk.held(), source_dir(source), fd);
        },
        Phase::StatBase { dir } => {
            lemma_count_opt(Some(dir), fd);
        },
        Phase::StatDir { dir, base_id } => {
            lemma_count_opt(Some(dir), fd);
        },
        Phase::Done => {},
    }
}

} // verus!
