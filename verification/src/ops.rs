//! Operations on a name below a base directory: creating and removing
//! directories and files, reading metadata and links, linking and renaming.
//!
//! Each operation first finds the directory that holds the last name of its
//! path, by a walk under the lookup flags, and then makes one system call on
//! that directory. An [`Operation`] makes the decisions and no system call: as
//! a [`crate::open::Walk`] does, it hands out one [`OpStep`] at a time.

use vstd::prelude::*;
use vstd::slice::slice_to_vec;
use crate::dir::BaseDir;
use crate::error::Error;
use crate::flags::LookupFlags;
use crate::inner::{prepare_inner_operation, split, Inner, Split};
use crate::open::{next, Outcome, Reply, ReplyView, Request, RequestView, State, Step, Walk};
use crate::path::{ends_with_parent, last_is_parent};
use crate::util::FileId;

verus! {

/// The system call that ends an operation. Its result is the operation's.
#[derive(Debug, PartialEq, Eq)]
pub enum Call {
    /// `mkdirat(dirfd, name, mode)`
    Mkdirat { dirfd: i32, name: Vec<u8>, mode: u32 },
    /// `unlinkat(dirfd, name, flags)`, with `AT_REMOVEDIR` where `remove_dir`
    /// is set.
    Unlinkat { dirfd: i32, name: Vec<u8>, remove_dir: bool },
    /// `fstatat(dirfd, name)`, without following a symbolic link.
    Fstatat { dirfd: i32, name: Vec<u8> },
    /// `fstat(fd)`
    Fstat { fd: i32 },
    /// `readlinkat(dirfd, name)`
    Readlinkat { dirfd: i32, name: Vec<u8> },
    /// `symlinkat(value, dirfd, name)`: a link at `name` that points to
    /// `value`.
    Symlinkat { dirfd: i32, name: Vec<u8>, value: Vec<u8> },
    /// `linkat(old_dirfd, old_name, new_dirfd, new_name)`
    Linkat { old_dirfd: i32, old_name: Vec<u8>, new_dirfd: i32, new_name: Vec<u8> },
    /// `renameat(old_dirfd, old_name, new_dirfd, new_name)`
    Renameat { old_dirfd: i32, old_name: Vec<u8>, new_dirfd: i32, new_name: Vec<u8> },
    /// The entries of the directory `fd`.
    ListDir { fd: i32 },
}

/// A system call, as the contracts speak of it.
pub enum CallView {
    Mkdirat { dirfd: i32, name: Seq<u8>, mode: u32 },
    Unlinkat { dirfd: i32, name: Seq<u8>, remove_dir: bool },
    Fstatat { dirfd: i32, name: Seq<u8> },
    Fstat { fd: i32 },
    Readlinkat { dirfd: i32, name: Seq<u8> },
    Symlinkat { dirfd: i32, name: Seq<u8>, value: Seq<u8> },
    Linkat { old_dirfd: i32, old_name: Seq<u8>, new_dirfd: i32, new_name: Seq<u8> },
    Renameat { old_dirfd: i32, old_name: Seq<u8>, new_dirfd: i32, new_name: Seq<u8> },
    ListDir { fd: i32 },
}

impl View for Call {
    type V = CallView;

    open spec fn view(&self) -> CallView {
        match *self {
            Call::Mkdirat { dirfd, name, mode } => CallView::Mkdirat { dirfd, name: name@, mode },
            Call::Unlinkat { dirfd, name, remove_dir } => CallView::Unlinkat {
                dirfd,
                name: name@,
                remove_dir,
            },
            Call::Fstatat { dirfd, name } => CallView::Fstatat { dirfd, name: name@ },
            Call::Fstat { fd } => CallView::Fstat { fd },
            Call::Readlinkat { dirfd, name } => CallView::Readlinkat { dirfd, name: name@ },
            Call::Symlinkat { dirfd, name, value } => CallView::Symlinkat {
                dirfd,
                name: name@,
                value: value@,
            },
            Call::Linkat { old_dirfd, old_name, new_dirfd, new_name } => CallView::Linkat {
                old_dirfd,
                old_name: old_name@,
                new_dirfd,
                new_name: new_name@,
            },
            Call::Renameat { old_dirfd, old_name, new_dirfd, new_name } => CallView::Renameat {
                old_dirfd,
                old_name: old_name@,
                new_dirfd,
                new_name: new_name@,
            },
            Call::ListDir { fd } => CallView::ListDir { fd },
        }
    }
}

/// What the caller is to do for an operation.
#[derive(Debug, PartialEq, Eq)]
pub enum Action {
    /// Perform the request and hand its result to [`Operation::step`].
    Ask(Request),
    /// Perform the call. Its result is the result of the operation.
    Finish(Call),
    /// The operation fails with this error.
    Fail(Error),
}

/// What the caller is to do, as the contracts speak of it.
pub enum ActionView {
    Ask(RequestView),
    Finish(CallView),
    Fail(Error),
}

impl View for Action {
    type V = ActionView;

    open spec fn view(&self) -> ActionView {
        match *self {
            Action::Ask(r) => ActionView::Ask(r@),
            Action::Finish(c) => ActionView::Finish(c@),
            Action::Fail(e) => ActionView::Fail(e),
        }
    }
}

/// One step of an operation.
#[derive(Debug, PartialEq, Eq)]
pub struct OpStep {
    /// Descriptors to close first.
    pub close: Vec<i32>,
    /// What to do then.
    pub action: Action,
    /// Descriptors to close after the call that ends the operation.
    pub then_close: Vec<i32>,
}

/// What an operation does at the place that its path names.
#[derive(Debug, PartialEq, Eq)]
pub enum Kind {
    CreateDir { mode: u32 },
    RemoveDir,
    RemoveFile,
    ListDir,
    Metadata,
    ReadLink,
    /// Makes a symbolic link that points to `value`.
    Symlink { value: Vec<u8> },
    /// Makes a hard link at `new` below the directory `new_dir`.
    Hardlink { new_dir: i32, new: Vec<u8> },
    /// Moves the file to `new` below the directory `new_dir`.
    Rename { new_dir: i32, new: Vec<u8> },
}

/// The kind of an operation, as the contracts speak of it.
pub enum KindView {
    CreateDir { mode: u32 },
    RemoveDir,
    RemoveFile,
    ListDir,
    Metadata,
    ReadLink,
    Symlink { value: Seq<u8> },
    Hardlink { new_dir: i32, new: Seq<u8> },
    Rename { new_dir: i32, new: Seq<u8> },
}

impl View for Kind {
    type V = KindView;

    open spec fn view(&self) -> KindView {
        match *self {
            Kind::CreateDir { mode } => KindView::CreateDir { mode },
            Kind::RemoveDir => KindView::RemoveDir,
            Kind::RemoveFile => KindView::RemoveFile,
            Kind::ListDir => KindView::ListDir,
            Kind::Metadata => KindView::Metadata,
            Kind::ReadLink => KindView::ReadLink,
            Kind::Symlink { value } => KindView::Symlink { value: value@ },
            Kind::Hardlink { new_dir, new } => KindView::Hardlink { new_dir, new: new@ },
            Kind::Rename { new_dir, new } => KindView::Rename { new_dir, new: new@ },
        }
    }
}

/// The place of the file that is linked or renamed, once it is found.
pub struct Located {
    /// The directory that holds the name; `None` for the base directory.
    pub dir: Option<i32>,
    /// The name.
    pub name: Seq<u8>,
}

/// How far an operation has come.
pub enum Phase {
    /// A walk looks for the directory that holds `name`, or for the directory
    /// that the whole path names where `name` is `None`. `source` is the place
    /// of the file that is linked or renamed, where the walk is for the new
    /// name.
    Walking { walk: State, name: Option<Seq<u8>>, source: Option<Located> },
    /// The directory `dir` is to be removed by a path without a last name:
    /// the operation waits for the identity of the base directory.
    StatBase { dir: i32 },
    /// It waits for the identity of `dir`.
    StatDir { dir: i32, base_id: FileId },
    /// The operation is over.
    Done,
}

/// What an operation is to do, as the contracts speak of it.
pub struct Plan {
    /// The base directory.
    pub dir: BaseDir,
    /// The lookup flags.
    pub flags: LookupFlags,
    /// What the operation does.
    pub kind: KindView,
}

/// The state of an operation.
pub struct OpState {
    /// What the operation is to do.
    pub plan: Plan,
    /// How far it has come.
    pub phase: Phase,
}

/// What a step of an operation comes to.
pub struct OpOutcome {
    pub state: OpState,
    pub close: Seq<i32>,
    pub action: ActionView,
    pub then_close: Seq<i32>,
}

/// The descriptor, where there is one.
pub open spec fn opt_seq(fd: Option<i32>) -> Seq<i32> {
    match fd {
        Some(fd) => seq![fd],
        None => Seq::empty(),
    }
}

/// The directory of a located source, where there is one.
pub open spec fn source_dir(source: Option<Located>) -> Seq<i32> {
    match source {
        Some(l) => opt_seq(l.dir),
        None => Seq::empty(),
    }
}

impl Plan {
    /// The state of an operation that is over.
    pub open spec fn over(self) -> OpState {
        OpState { plan: self, phase: Phase::Done }
    }

    /// The operation fails with `e`, once `close` is closed.
    pub open spec fn fail(self, e: Error, close: Seq<i32>) -> OpOutcome {
        OpOutcome { state: self.over(), close, action: ActionView::Fail(e), then_close: Seq::empty() }
    }

    /// The operation ends with `call`.
    pub open spec fn finish(self, call: CallView, close: Seq<i32>, then_close: Seq<i32>) -> OpOutcome {
        OpOutcome { state: self.over(), close, action: ActionView::Finish(call), then_close }
    }

    /// Whether the operation has two paths.
    pub open spec fn is_pair(self) -> bool {
        self.kind is Hardlink || self.kind is Rename
    }

    /// The base directory of the path that is walked: that of the new name
    /// once the source is located, else that of the operation.
    pub open spec fn base_of(self, source: Option<Located>) -> BaseDir {
        match (self.kind, source) {
            (KindView::Hardlink { new_dir, .. }, Some(_)) => BaseDir { fd: new_dir, ..self.dir },
            (KindView::Rename { new_dir, .. }, Some(_)) => BaseDir { fd: new_dir, ..self.dir },
            _ => self.dir,
        }
    }
}

impl OpOutcome {
    /// The same outcome, with `close` closed first.
    pub open spec fn after_closing(self, close: Seq<i32>) -> OpOutcome {
        OpOutcome { close: close + self.close, ..self }
    }
}

/// The operation has found its place: `name` in the directory `dir`, or the
/// directory `dir` itself where `name` is `None`; the base directory stands
/// for a `dir` of `None`.
///
/// With a name, the operation ends with its system call at that name. Without
/// one:
/// - making a directory or a symbolic link fails with `EEXIST`;
/// - removing a directory fails with `EBUSY` at the base directory; else the
///   identities of the base directory and `dir` are asked for;
/// - removing a file fails with `EISDIR`;
/// - reading a link fails with `EINVAL`;
/// - metadata are those of the directory itself;
/// - a link or a rename fails with `ENOTSUP` where the source has no name,
///   and with `EEXIST` where the new path has none.
///
/// A link or a rename whose source has a name goes on to locate the new
/// path.
pub open spec fn located(
    s: Plan,
    dir: Option<i32>,
    name: Option<Seq<u8>>,
    source: Option<Located>,
) -> OpOutcome
    decreases
        (if source is None { 1int } else { 0int }),
        0int,
{
    let base = s.base_of(source).fd;
    let dirfd = match dir {
        Some(fd) => fd,
        None => base,
    };
    let errno = s.dir.host.errno;
    match s.kind {
        KindView::CreateDir { mode } => match name {
            Some(name) => s.finish(
                CallView::Mkdirat { dirfd, name, mode },
                Seq::empty(),
                opt_seq(dir),
            ),
            None => s.fail(Error::Os(errno.eexist), opt_seq(dir)),
        },
        KindView::RemoveDir => match name {
            Some(name) => s.finish(
                CallView::Unlinkat { dirfd, name, remove_dir: true },
                Seq::empty(),
                opt_seq(dir),
            ),
            None => match dir {
                Some(fd) => OpOutcome {
                    state: OpState { plan: s, phase: Phase::StatBase { dir: fd } },
                    close: Seq::empty(),
                    action: ActionView::Ask(RequestView::Fstat { fd: s.dir.fd }),
                    then_close: Seq::empty(),
                },
                None => s.fail(Error::Os(errno.ebusy), Seq::empty()),
            },
        },
        KindView::RemoveFile => match name {
            Some(name) => s.finish(
                CallView::Unlinkat { dirfd, name, remove_dir: false },
                Seq::empty(),
                opt_seq(dir),
            ),
            None => s.fail(Error::Os(errno.eisdir), opt_seq(dir)),
        },
        KindView::ListDir => s.finish(CallView::ListDir { fd: dirfd }, Seq::empty(), opt_seq(dir)),
        KindView::Metadata => match name {
            Some(name) => s.finish(CallView::Fstatat { dirfd, name }, Seq::empty(), opt_seq(dir)),
            None => s.finish(CallView::Fstat { fd: dirfd }, Seq::empty(), opt_seq(dir)),
        },
        KindView::ReadLink => match name {
            Some(name) => s.finish(
                CallView::Readlinkat { dirfd, name },
                Seq::empty(),
                opt_seq(dir),
            ),
            None => s.fail(Error::Os(errno.einval), opt_seq(dir)),
        },
        KindView::Symlink { value } => match name {
            Some(name) => s.finish(
                CallView::Symlinkat { dirfd, name, value },
                Seq::empty(),
                opt_seq(dir),
            ),
            None => s.fail(Error::Os(errno.eexist), opt_seq(dir)),
        },
        KindView::Hardlink { new_dir, new } => match (source, name) {
            (None, None) => s.fail(Error::Os(errno.enotsup), opt_seq(dir)),
            (None, Some(name)) => locate(s, new, Some(Located { dir, name })),
            (Some(src), None) => s.fail(Error::Os(errno.eexist), opt_seq(dir) + opt_seq(src.dir)),
            (Some(src), Some(name)) => s.finish(
                CallView::Linkat {
                    old_dirfd: match src.dir {
                        Some(fd) => fd,
                        None => s.dir.fd,
                    },
                    old_name: src.name,
                    new_dirfd: dirfd,
                    new_name: name,
                },
                Seq::empty(),
                opt_seq(dir) + opt_seq(src.dir),
            ),
        },
        KindView::Rename { new_dir, new } => match (source, name) {
            (None, None) => s.fail(Error::Os(errno.enotsup), opt_seq(dir)),
            (None, Some(name)) => locate(s, new, Some(Located { dir, name })),
            (Some(src), None) => s.fail(Error::Os(errno.eexist), opt_seq(dir) + opt_seq(src.dir)),
            (Some(src), Some(name)) => s.finish(
                CallView::Renameat {
                    old_dirfd: match src.dir {
                        Some(fd) => fd,
                        None => s.dir.fd,
                    },
                    old_name: src.name,
                    new_dirfd: dirfd,
                    new_name: name,
                },
                Seq::empty(),
                opt_seq(dir) + opt_seq(src.dir),
            ),
        },
    }
}

/// The operation looks for the place that `path` names: it splits the path,
/// and where the place is not in the base directory, it begins the walk to
/// the directory that holds it.
pub open spec fn locate(s: Plan, path: Seq<u8>, source: Option<Located>) -> OpOutcome
    decreases
        (if source is None { 1int } else { 0int }),
        2int,
{
    let base = s.base_of(source);
    match split(s.dir.host, path, s.flags) {
        Err(e) => s.fail(e, source_dir(source)),
        Ok(Split::Base) => located(s, None, None, source),
        Ok(Split::InBase { name }) => located(s, None, Some(name), source),
        Ok(Split::InParent { parent, name }) => route(
            s,
            base.walk(parent, s.flags, base.host.base_dir_flags(), 0),
            Some(name),
            source,
        ),
        Ok(Split::Whole { path }) => route(
            s,
            base.walk(path, s.flags, base.host.base_dir_flags(), 0),
            None,
            source,
        ),
    }
}

/// The operation takes a step of its walk: the directory that the walk
/// returns is the place, an error of the walk is the error of the operation,
/// and any other request is handed on.
pub open spec fn route(
    s: Plan,
    o: Outcome,
    name: Option<Seq<u8>>,
    source: Option<Located>,
) -> OpOutcome
    decreases
        (if source is None { 1int } else { 0int }),
        1int,
{
    match o.request {
        RequestView::Return(Ok(fd)) => located(s, Some(fd), name, source).after_closing(o.close),
        RequestView::Return(Err(e)) => s.fail(e, o.close + source_dir(source)),
        request => OpOutcome {
            state: OpState { plan: s, phase: Phase::Walking { walk: o.state, name, source } },
            close: o.close,
            action: ActionView::Ask(request),
            then_close: Seq::empty(),
        },
    }
}

/// The first step of an operation on `path`.
///
/// A link or a rename of a path that ends in `..` fails with `ENOTSUP`: such
/// a path names no entry of a directory. Listing a directory walks the whole
/// path. Every other operation locates the place that the path names.
pub open spec fn op_start(s: Plan, path: Seq<u8>) -> OpOutcome {
    if s.is_pair() && ends_with_parent(path) {
        s.fail(Error::Os(s.dir.host.errno.enotsup), Seq::empty())
    } else if s.kind is ListDir {
        route(s, s.dir.walk(path, s.flags, s.dir.host.base_dir_flags(), 0), None, None)
    } else {
        locate(s, path, None)
    }
}

/// The step of an operation that follows a reply.
///
/// While a walk is under way the reply is the walk's. Where a directory is to
/// be removed by a path without a last name, the two identities decide: the
/// operation fails with `EBUSY` where the directory is the base directory, and
/// with `ENOTEMPTY` else; an error of `fstat` is the error of the operation.
/// A reply that answers no request ends the operation as an invalid input.
pub open spec fn op_next(state: OpState, reply: ReplyView) -> OpOutcome {
    let s = state.plan;
    match state.phase {
        Phase::Walking { walk, name, source } => route(s, next(walk, reply), name, source),
        Phase::StatBase { dir } => match reply {
            ReplyView::Stat(id) => OpOutcome {
                state: OpState { plan: s, phase: Phase::StatDir { dir, base_id: id } },
                close: Seq::empty(),
                action: ActionView::Ask(RequestView::Fstat { fd: dir }),
                then_close: Seq::empty(),
            },
            ReplyView::Errno(e) => s.fail(Error::Os(e), seq![dir]),
            _ => s.fail(Error::InvalidInput, seq![dir]),
        },
        Phase::StatDir { dir, base_id } => match reply {
            ReplyView::Stat(id) => s.fail(
                Error::Os(
                    if base_id.dev == id.dev && base_id.ino == id.ino {
                        s.dir.host.errno.ebusy
                    } else {
                        s.dir.host.errno.enotempty
                    },
                ),
                seq![dir],
            ),
            ReplyView::Errno(e) => s.fail(Error::Os(e), seq![dir]),
            _ => s.fail(Error::InvalidInput, seq![dir]),
        },
        Phase::Done => s.fail(Error::InvalidInput, Seq::empty()),
    }
}

/// What an operation is to do.
#[derive(Debug)]
pub struct Task {
    /// The base directory.
    pub dir: BaseDir,
    /// The lookup flags.
    pub flags: LookupFlags,
    /// What the operation does.
    pub kind: Kind,
}

impl View for Task {
    type V = Plan;

    open spec fn view(&self) -> Plan {
        Plan { dir: self.dir, flags: self.flags, kind: self.kind@ }
    }
}

/// The place of the file that is linked or renamed.
#[derive(Debug)]
struct Source {
    dir: Option<i32>,
    name: Vec<u8>,
}

/// How far an operation has come.
#[derive(Debug)]
enum Stage {
    Walking { walk: Walk, name: Option<Vec<u8>>, source: Option<Source> },
    StatBase { dir: i32 },
    StatDir { dir: i32, base_id: FileId },
    Done,
}

/// The bytes of a name, where there is one.
pub open spec fn name_view(name: Option<Vec<u8>>) -> Option<Seq<u8>> {
    match name {
        Some(n) => Some(n@),
        None => None,
    }
}

/// The place of the source, where it has been found.
spec fn source_view(source: Option<Source>) -> Option<Located> {
    match source {
        Some(s) => Some(Located { dir: s.dir, name: s.name@ }),
        None => None,
    }
}

impl View for Stage {
    type V = Phase;

    closed spec fn view(&self) -> Phase {
        match *self {
            Stage::Walking { walk, name, source } => Phase::Walking {
                walk: walk@,
                name: name_view(name),
                source: source_view(source),
            },
            Stage::StatBase { dir } => Phase::StatBase { dir },
            Stage::StatDir { dir, base_id } => Phase::StatDir { dir, base_id },
            Stage::Done => Phase::Done,
        }
    }
}

/// One operation on a name below a base directory.
#[derive(Debug)]
pub struct Operation {
    task: Task,
    stage: Stage,
}

impl View for Operation {
    type V = OpState;

    closed spec fn view(&self) -> OpState {
        OpState { plan: self.task@, phase: self.stage@ }
    }
}

/// Whether an operation and the step it handed out are what `o` says.
pub open spec fn op_follows(r: (Operation, OpStep), o: OpOutcome) -> bool {
    &&& r.0@ == o.state
    &&& r.1.close@ == o.close
    &&& r.1.action@ == o.action
    &&& r.1.then_close@ == o.then_close
}

/// The descriptor, where there is one.
fn opt_vec(fd: Option<i32>) -> (r: Vec<i32>)
    ensures
        r@ == opt_seq(fd),
{
    let mut v: Vec<i32> = Vec::new();
    match fd {
        Some(fd) => {
            v.push(fd);
        },
        None => {},
    }
    v
}

/// Ends the operation with the error `e`, once `close` is closed.
fn fail(task: Task, e: Error, close: Vec<i32>) -> (r: (Operation, OpStep))
    ensures
        op_follows(r, task@.fail(e, close@)),
{
    (
        Operation { task, stage: Stage::Done },
        OpStep { close, action: Action::Fail(e), then_close: Vec::new() },
    )
}

/// Ends the operation with `call`.
fn finish(task: Task, call: Call, then_close: Vec<i32>) -> (r: (Operation, OpStep))
    ensures
        op_follows(r, task@.finish(call@, Seq::empty(), then_close@)),
{
    (
        Operation { task, stage: Stage::Done },
        OpStep { close: Vec::new(), action: Action::Finish(call), then_close },
    )
}

/// Ends the operation with the error number `errno`, once both directories
/// are closed.
fn fail_both(task: Task, errno: i32, dir: Option<i32>, other: Option<i32>) -> (r: (
    Operation,
    OpStep,
))
    ensures
        op_follows(r, task@.fail(Error::Os(errno), opt_seq(dir) + opt_seq(other))),
{
    let mut close = opt_vec(dir);
    let mut rest = opt_vec(other);
    close.append(&mut rest);
    fail(task, Error::Os(errno), close)
}

impl Operation {
    /// Decides what to do at the place that has been found.
    fn located(task: Task, dir: Option<i32>, name: Option<Vec<u8>>, source: Option<Source>) -> (r: (
        Operation,
        OpStep,
    ))
        ensures
            op_follows(r, located(task@, dir, name_view(name), source_view(source))),
        decreases
            (if source is None { 1int } else { 0int }),
            0int,
    {
        let base = match (&task.kind, &source) {
            (Kind::Hardlink { new_dir, .. }, Some(_)) => *new_dir,
            (Kind::Rename { new_dir, .. }, Some(_)) => *new_dir,
            _ => task.dir.fd,
        };
        let dirfd = match dir {
            Some(fd) => fd,
            None => base,
        };
        let errno = task.dir.host.errno;
        match &task.kind {
            Kind::CreateDir { mode } => {
                let mode = *mode;
                match name {
                    Some(name) => finish(task, Call::Mkdirat { dirfd, name, mode }, opt_vec(dir)),
                    None => fail(task, Error::Os(errno.eexist), opt_vec(dir)),
                }
            },
            Kind::RemoveDir => match name {
                Some(name) => finish(
                    task,
                    Call::Unlinkat { dirfd, name, remove_dir: true },
                    opt_vec(dir),
                ),
                None => match dir {
                    Some(fd) => {
                        let request = Request::Fstat { fd: task.dir.fd };
                        (
                            Operation { task, stage: Stage::StatBase { dir: fd } },
                            OpStep { close: Vec::new(), action: Action::Ask(request), then_close: Vec::new() },
                        )
                    },
                    None => fail(task, Error::Os(errno.ebusy), Vec::new()),
                },
            },
            Kind::RemoveFile => match name {
                Some(name) => finish(
                    task,
                    Call::Unlinkat { dirfd, name, remove_dir: false },
                    opt_vec(dir),
                ),
                None => fail(task, Error::Os(errno.eisdir), opt_vec(dir)),
            },
            Kind::ListDir => finish(task, Call::ListDir { fd: dirfd }, opt_vec(dir)),
            Kind::Metadata => match name {
                Some(name) => finish(task, Call::Fstatat { dirfd, name }, opt_vec(dir)),
                None => finish(task, Call::Fstat { fd: dirfd }, opt_vec(dir)),
            },
            Kind::ReadLink => match name {
                Some(name) => finish(task, Call::Readlinkat { dirfd, name }, opt_vec(dir)),
                None => fail(task, Error::Os(errno.einval), opt_vec(dir)),
            },
            Kind::Symlink { value } => {
                let value = slice_to_vec(value.as_slice());
                match name {
                    Some(name) => finish(task, Call::Symlinkat { dirfd, name, value }, opt_vec(dir)),
                    None => fail(task, Error::Os(errno.eexist), opt_vec(dir)),
                }
            },
            Kind::Hardlink { new_dir, new } => {
                let new = slice_to_vec(new.as_slice());
                match (source, name) {
                    (None, None) => fail(task, Error::Os(errno.enotsup), opt_vec(dir)),
                    (None, Some(name)) => Operation::locate(task, new, Some(Source { dir, name })),
                    (Some(src), None) => fail_both(task, errno.eexist, dir, src.dir),
                    (Some(src), Some(name)) => {
                        let old_dirfd = match src.dir {
                            Some(fd) => fd,
                            None => task.dir.fd,
                        };
                        let mut then_close = opt_vec(dir);
                        let mut rest = opt_vec(src.dir);
                        then_close.append(&mut rest);
                        finish(
                            task,
                            Call::Linkat {
                                old_dirfd,
                                old_name: src.name,
                                new_dirfd: dirfd,
                                new_name: name,
                            },
                            then_close,
                        )
                    },
                }
            },
            Kind::Rename { new_dir, new } => {
                let new = slice_to_vec(new.as_slice());
                match (source, name) {
                    (None, None) => fail(task, Error::Os(errno.enotsup), opt_vec(dir)),
                    (None, Some(name)) => Operation::locate(task, new, Some(Source { dir, name })),
                    (Some(src), None) => fail_both(task, errno.eexist, dir, src.dir),
                    (Some(src), Some(name)) => {
                        let old_dirfd = match src.dir {
                            Some(fd) => fd,
                            None => task.dir.fd,
                        };
                        let mut then_close = opt_vec(dir);
                        let mut rest = opt_vec(src.dir);
                        then_close.append(&mut rest);
                        finish(
                            task,
                            Call::Renameat {
                                old_dirfd,
                                old_name: src.name,
                                new_dirfd: dirfd,
                                new_name: name,
                            },
                            then_close,
                        )
                    },
                }
            },
        }
    }

    /// Looks for the place that `path` names.
    fn locate(task: Task, path: Vec<u8>, source: Option<Source>) -> (r: (Operation, OpStep))
        ensures
            op_follows(r, locate(task@, path@, source_view(source))),
        decreases
            (if source is None { 1int } else { 0int }),
            2int,
    {
        let base = match (&task.kind, &source) {
            (Kind::Hardlink { new_dir, .. }, Some(_)) => BaseDir { fd: *new_dir, ..task.dir },
            (Kind::Rename { new_dir, .. }, Some(_)) => BaseDir { fd: *new_dir, ..task.dir },
            _ => task.dir,
        };
        match prepare_inner_operation(&task.dir.host, path.as_slice(), task.flags) {
            Err(e) => {
                let close = match &source {
                    Some(s) => opt_vec(s.dir),
                    None => Vec::new(),
                };
                fail(task, e, close)
            },
            Ok(Inner::Base) => Operation::located(task, None, None, source),
            Ok(Inner::InBase { name }) => Operation::located(task, None, Some(name), source),
            Ok(Inner::InParent { parent, name }) => {
                let (walk, step) = base.sub_dir_secure(parent.as_slice(), task.flags);
                Operation::route(task, walk, step, Some(name), source)
            },
            Ok(Inner::Whole { path }) => {
                let (walk, step) = base.sub_dir_secure(path.as_slice(), task.flags);
                Operation::route(task, walk, step, None, source)
            },
        }
    }

    /// Takes a step of the walk that looks for the place.
    fn route(task: Task, walk: Walk, step: Step, name: Option<Vec<u8>>, source: Option<Source>) -> (r: (
        Operation,
        OpStep,
    ))
        ensures
            op_follows(
                r,
                route(
                    task@,
                    Outcome { state: walk@, close: step.close@, request: step.request@ },
                    name_view(name),
                    source_view(source),
                ),
            ),
        decreases
            (if source is None { 1int } else { 0int }),
            1int,
    {
        let Step { close, request } = step;
        match request {
            Request::Return(Ok(fd)) => {
                let (op, next) = Operation::located(task, Some(fd), name, source);
                let mut all = close;
                let mut rest = next.close;
                all.append(&mut rest);
                (op, OpStep { close: all, action: next.action, then_close: next.then_close })
            },
            Request::Return(Err(e)) => {
                let mut all = close;
                let mut rest = match &source {
                    Some(s) => opt_vec(s.dir),
                    None => Vec::new(),
                };
                all.append(&mut rest);
                fail(task, e, all)
            },
            request => (
                Operation { task, stage: Stage::Walking { walk, name, source } },
                OpStep { close, action: Action::Ask(request), then_close: Vec::new() },
            ),
        }
    }

    /// Begins the operation `task` on `path`.
    pub fn start(task: Task, path: &[u8]) -> (r: (Operation, OpStep))
        ensures
            op_follows(r, op_start(task@, path@)),
    {
        let pair = match &task.kind {
            Kind::Hardlink { .. } | Kind::Rename { .. } => true,
            _ => false,
        };
        let list = match &task.kind {
            Kind::ListDir => true,
            _ => false,
        };
        if pair && last_is_parent(path) {
            let errno = task.dir.host.errno.enotsup;
            fail(task, Error::Os(errno), Vec::new())
        } else if list {
            let (walk, step) = task.dir.sub_dir_secure(path, task.flags);
            Operation::route(task, walk, step, None, None)
        } else {
            Operation::locate(task, slice_to_vec(path), None)
        }
    }

    /// Whether the operation is over.
    pub fn is_done(&self) -> (r: bool)
        ensures
            r == (self@.phase is Done),
    {
        match self.stage {
            Stage::Done => true,
            _ => false,
        }
    }

    /// Takes the reply to the request that the operation handed out last, and
    /// hands out the next step.
    pub fn step(self, reply: Reply) -> (r: (Operation, OpStep))
        ensures
            op_follows(r, op_next(self@, reply@)),
    {
        let Operation { task, stage } = self;
        match stage {
            Stage::Walking { walk, name, source } => {
                let (walk, step) = walk.step(reply);
                Operation::route(task, walk, step, name, source)
            },
            Stage::StatBase { dir } => match reply {
                Reply::Stat(id) => (
                    Operation { task, stage: Stage::StatDir { dir, base_id: id } },
                    OpStep {
                        close: Vec::new(),
                        action: Action::Ask(Request::Fstat { fd: dir }),
                        then_close: Vec::new(),
                    },
                ),
                Reply::Errno(e) => fail(task, Error::Os(e), opt_vec(Some(dir))),
                _ => fail(task, Error::InvalidInput, opt_vec(Some(dir))),
            },
            Stage::StatDir { dir, base_id } => match reply {
                Reply::Stat(id) => {
                    let errno = if base_id.dev == id.dev && base_id.ino == id.ino {
                        task.dir.host.errno.ebusy
                    } else {
                        task.dir.host.errno.enotempty
                    };
                    fail(task, Error::Os(errno), opt_vec(Some(dir)))
                },
                Reply::Errno(e) => fail(task, Error::Os(e), opt_vec(Some(dir))),
                _ => fail(task, Error::InvalidInput, opt_vec(Some(dir))),
            },
            Stage::Done => fail(task, Error::InvalidInput, Vec::new()),
        }
    }
}

impl BaseDir {
    /// The plan of an operation of `kind` below this directory.
    pub open spec fn plan(self, lookup_flags: LookupFlags, kind: KindView) -> Plan {
        Plan { dir: self, flags: lookup_flags, kind }
    }

    /// Begins to create the directory at `path`.
    pub fn create_dir_secure(&self, path: &[u8], mode: u32, lookup_flags: LookupFlags) -> (r: (
        Operation,
        OpStep,
    ))
        ensures
            op_follows(r, op_start(self.plan(lookup_flags, KindView::CreateDir { mode }), path@)),
    {
        Operation::start(
            Task { dir: *self, flags: lookup_flags, kind: Kind::CreateDir { mode } },
            path,
        )
    }

    /// Begins to remove the directory at `path`.
    pub fn remove_dir_secure(&self, path: &[u8], lookup_flags: LookupFlags) -> (r: (
        Operation,
        OpStep,
    ))
        ensures
            op_follows(r, op_start(self.plan(lookup_flags, KindView::RemoveDir), path@)),
    {
        Operation::start(Task { dir: *self, flags: lookup_flags, kind: Kind::RemoveDir }, path)
    }

    /// Begins to remove the file at `path`.
    pub fn remove_file_secure(&self, path: &[u8], lookup_flags: LookupFlags) -> (r: (
        Operation,
        OpStep,
    ))
        ensures
            op_follows(r, op_start(self.plan(lookup_flags, KindView::RemoveFile), path@)),
    {
        Operation::start(Task { dir: *self, flags: lookup_flags, kind: Kind::RemoveFile }, path)
    }

    /// Begins to list the directory at `path`.
    pub fn list_dir_secure(&self, path: &[u8], lookup_flags: LookupFlags) -> (r: (
        Operation,
        OpStep,
    ))
        ensures
            op_follows(r, op_start(self.plan(lookup_flags, KindView::ListDir), path@)),
    {
        Operation::start(Task { dir: *self, flags: lookup_flags, kind: Kind::ListDir }, path)
    }

    /// Begins to read the metadata of the file at `path`.
    pub fn metadata_secure(&self, path: &[u8], lookup_flags: LookupFlags) -> (r: (
        Operation,
        OpStep,
    ))
        ensures
            op_follows(r, op_start(self.plan(lookup_flags, KindView::Metadata), path@)),
    {
        Operation::start(Task { dir: *self, flags: lookup_flags, kind: Kind::Metadata }, path)
    }

    /// Begins to read the target of the symbolic link at `path`.
    pub fn read_link_secure(&self, path: &[u8], lookup_flags: LookupFlags) -> (r: (
        Operation,
        OpStep,
    ))
        ensures
            op_follows(r, op_start(self.plan(lookup_flags, KindView::ReadLink), path@)),
    {
        Operation::start(Task { dir: *self, flags: lookup_flags, kind: Kind::ReadLink }, path)
    }

    /// Begins to make a symbolic link at `path` that points to `value`.
    pub fn symlink_secure(&self, path: &[u8], value: &[u8], lookup_flags: LookupFlags) -> (r: (
        Operation,
        OpStep,
    ))
        ensures
            op_follows(
                r,
                op_start(self.plan(lookup_flags, KindView::Symlink { value: value@ }), path@),
            ),
    {
        Operation::start(
            Task { dir: *self, flags: lookup_flags, kind: Kind::Symlink { value: slice_to_vec(value) } },
            path,
        )
    }

    /// Begins to move the file at `old` to `new`, both below this directory.
    pub fn local_rename_secure(&self, old: &[u8], new: &[u8], lookup_flags: LookupFlags) -> (r: (
        Operation,
        OpStep,
    ))
        ensures
            op_follows(
                r,
                op_start(
                    self.plan(lookup_flags, KindView::Rename { new_dir: self.fd, new: new@ }),
                    old@,
                ),
            ),
    {
        rename_secure(self, old, self, new, lookup_flags)
    }
}

/// Begins to make a hard link to the file at `old` below `old_dir`, at `new`
/// below `new_dir`. The host of `old_dir` is the host of both.
pub fn hardlink_secure(
    old_dir: &BaseDir,
    old: &[u8],
    new_dir: &BaseDir,
    new: &[u8],
    lookup_flags: LookupFlags,
) -> (r: (Operation, OpStep))
    ensures
        op_follows(
            r,
            op_start(
                old_dir.plan(lookup_flags, KindView::Hardlink { new_dir: new_dir.fd, new: new@ }),
                old@,
            ),
        ),
{
    Operation::start(
        Task {
            dir: *old_dir,
            flags: lookup_flags,
            kind: Kind::Hardlink { new_dir: new_dir.fd, new: slice_to_vec(new) },
        },
        old,
    )
}

/// Begins to move the file at `old` below `old_dir` to `new` below `new_dir`.
/// The host of `old_dir` is the host of both.
pub fn rename_secure(
    old_dir: &BaseDir,
    old: &[u8],
    new_dir: &BaseDir,
    new: &[u8],
    lookup_flags: LookupFlags,
) -> (r: (Operation, OpStep))
    ensures
        op_follows(
            r,
            op_start(
                old_dir.plan(lookup_flags, KindView::Rename { new_dir: new_dir.fd, new: new@ }),
                old@,
            ),
        ),
{
    Operation::start(
        Task {
            dir: *old_dir,
            flags: lookup_flags,
            kind: Kind::Rename { new_dir: new_dir.fd, new: slice_to_vec(new) },
        },
        old,
    )
}

} // verus!
