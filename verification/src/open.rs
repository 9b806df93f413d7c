//! The walk: resolving a path below a base directory, one component at a time.
//!
//! A [`Walk`] makes the decisions of one resolution and no system call. Each
//! [`Step`] names the descriptors that the caller is to close and one
//! [`Request`]; the caller performs the request and hands its result back as a
//! [`Reply`], until the request is [`Request::Return`].
//!
//! What the walk does is written down once, as functions on its mathematical
//! state ([`State`]): [`start`] for the first step and [`next`] for each
//! reply. The executable walk is proved to follow them.

use vstd::prelude::*;
use vstd::slice::slice_to_vec;
use std::collections::VecDeque;
use crate::error::Error;
use crate::flags::{LookupFlags, Policy};
use crate::host::Host;
use crate::openat2::{spec_falls_back, falls_back, how_for, RawOpenHow, ResolveFlags};
use crate::path::{
    components,
    contains_parent,
    ends_with_slash,
    has_nul,
    has_parent,
    has_trailing_slash,
    parse,
    tokens,
    Component,
    Token,
};
use crate::util::{spec_symlink_limit, symlink_limit, FileId};

verus! {

/// What the caller is asked to do.
#[derive(Debug, PartialEq, Eq)]
pub enum Request {
    /// `openat2(dirfd, path, how)`: the whole resolution, offered to the kernel.
    Openat2 { dirfd: i32, path: Vec<u8>, how: RawOpenHow },
    /// `fstat(fd)`, for the device that the file lies on.
    Fstat { fd: i32 },
    /// `openat(dirfd, name, flags, mode)`.
    Openat { dirfd: i32, name: Vec<u8>, flags: i32, mode: u32 },
    /// `readlinkat(dirfd, name)`.
    Readlinkat { dirfd: i32, name: Vec<u8> },
    /// A duplicate of `fd`.
    Dup { fd: i32 },
    /// The resolution is over, with this result.
    Return(Result<i32, Error>),
}

/// A request, as the contracts speak of it.
pub enum RequestView {
    Openat2 { dirfd: i32, path: Seq<u8>, how: RawOpenHow },
    Fstat { fd: i32 },
    Openat { dirfd: i32, name: Seq<u8>, flags: i32, mode: u32 },
    Readlinkat { dirfd: i32, name: Seq<u8> },
    Dup { fd: i32 },
    Return(Result<i32, Error>),
}

impl View for Request {
    type V = RequestView;

    open spec fn view(&self) -> RequestView {
        match *self {
            Request::Openat2 { dirfd, path, how } => RequestView::Openat2 { dirfd, path: path@, how },
            Request::Fstat { fd } => RequestView::Fstat { fd },
            Request::Openat { dirfd, name, flags, mode } => RequestView::Openat {
                dirfd,
                name: name@,
                flags,
                mode,
            },
            Request::Readlinkat { dirfd, name } => RequestView::Readlinkat { dirfd, name: name@ },
            Request::Dup { fd } => RequestView::Dup { fd },
            Request::Return(r) => RequestView::Return(r),
        }
    }
}

/// The result of a request.
#[derive(Debug, PartialEq, Eq)]
pub enum Reply {
    /// The descriptor that `openat2`, `openat` or the duplication returned.
    Fd(i32),
    /// The identity of the file that `fstat` returned.
    Stat(FileId),
    /// The target that `readlinkat` returned.
    Target(Vec<u8>),
    /// The error number with which the call failed.
    Errno(i32),
}

/// A reply, as the contracts speak of it.
pub enum ReplyView {
    Fd(i32),
    Stat(FileId),
    Target(Seq<u8>),
    Errno(i32),
}

impl View for Reply {
    type V = ReplyView;

    open spec fn view(&self) -> ReplyView {
        match *self {
            Reply::Fd(fd) => ReplyView::Fd(fd),
            Reply::Stat(id) => ReplyView::Stat(id),
            Reply::Target(t) => ReplyView::Target(t@),
            Reply::Errno(e) => ReplyView::Errno(e),
        }
    }
}

/// One step of a walk: descriptors to close, then a request to perform.
#[derive(Debug, PartialEq, Eq)]
pub struct Step {
    /// Descriptors that the walk was given and has no more use for. The caller
    /// closes them.
    pub close: Vec<i32>,
    /// What to do next.
    pub request: Request,
}

/// The request whose reply a walk waits for.
pub enum Pending {
    /// The result of `openat2`.
    Kernel,
    /// The device of the base directory.
    BaseDevice,
    /// The result of opening `name` in the current directory.
    Open { name: Seq<u8> },
    /// The device of the file `fd` that was just opened.
    Device { fd: i32 },
    /// The target of `name`, which could not be opened: `errno` is the error
    /// number of the open after normalization, `raw` the one that was reported.
    Link { name: Seq<u8>, errno: i32, raw: i32 },
    /// A duplicate of the base directory.
    Duplicate,
    /// Nothing: the walk is over.
    Nothing,
}

/// The state of a walk.
pub struct State {
    /// The host system.
    pub host: Host,
    /// The lookup flags.
    pub flags: LookupFlags,
    /// The descriptor of the base directory.
    pub base: i32,
    /// The mode for a file that the last open creates.
    pub mode: u32,
    /// How many symbolic links the walk may follow.
    pub limit: usize,
    /// The components that are still to be walked, the next one first.
    pub queue: Seq<Token>,
    /// The directory that the walk has reached; `None` for the base directory.
    pub current: Option<i32>,
    /// The directories above `current` and below the base directory, the
    /// nearest last. They are kept only while `..` is accepted.
    pub parents: Seq<i32>,
    /// How many symbolic links the walk has followed.
    pub seen: usize,
    /// The device of the base directory, once it has been asked for.
    pub base_dev: u64,
    /// The flags for opening the last component.
    pub final_flags: i32,
    /// What the walk waits for.
    pub pending: Pending,
}

/// What a step comes to: the state after it, and what the caller is handed.
pub struct Outcome {
    pub state: State,
    pub close: Seq<i32>,
    pub request: RequestView,
}

impl State {
    /// The policy of the walk.
    pub open spec fn policy(self) -> Policy {
        self.flags.spec_policy(self.host)
    }

    /// The descriptor of the directory that the walk has reached.
    pub open spec fn dirfd(self) -> i32 {
        match self.current {
            Some(fd) => fd,
            None => self.base,
        }
    }

    /// The directories that the walk holds: the parents, then the current
    /// directory.
    pub open spec fn dirs(self) -> Seq<i32> {
        match self.current {
            Some(fd) => self.parents.push(fd),
            None => self.parents,
        }
    }

    /// The descriptors that the walk holds: its directories, and the file it
    /// has just opened while it waits for that file's device.
    pub open spec fn held(self) -> Seq<i32> {
        match self.pending {
            Pending::Device { fd } => self.dirs().push(fd),
            _ => self.dirs(),
        }
    }

    /// The state of a walk that is over: it holds no descriptor.
    pub open spec fn finished(self) -> State {
        State { current: None, parents: Seq::empty(), pending: Pending::Nothing, ..self }
    }

    /// The walk ends with `result`, and every descriptor it holds is closed.
    pub open spec fn end(self, result: Result<i32, Error>) -> Outcome {
        Outcome { state: self.finished(), close: self.held(), request: RequestView::Return(result) }
    }

    /// The walk ends with the error number `errno`.
    pub open spec fn fail(self, errno: i32) -> Outcome {
        self.end(Err(Error::Os(errno)))
    }

    /// The flags with which the next name is opened: the caller's for the last
    /// component, else those for a directory that is walked through; in both
    /// cases with `O_NOFOLLOW` and `O_CLOEXEC`.
    pub open spec fn open_flags(self) -> i32 {
        (if self.queue.len() == 0 {
            self.final_flags
        } else {
            self.host.base_dir_flags()
        }) | self.host.open.o_nofollow | self.host.open.o_cloexec
    }

    /// Whether the walk waits for a reply of this kind.
    pub open spec fn accepts(self, reply: ReplyView) -> bool {
        match self.pending {
            Pending::Kernel | Pending::Open { .. } | Pending::Duplicate => reply is Fd
                || reply is Errno,
            Pending::BaseDevice | Pending::Device { .. } => reply is Stat || reply is Errno,
            Pending::Link { .. } => reply is Target || reply is Errno,
            Pending::Nothing => false,
        }
    }
}

impl Outcome {
    /// The same outcome, with `close` closed first.
    pub open spec fn after_closing(self, close: Seq<i32>) -> Outcome {
        Outcome { close: close + self.close, ..self }
    }
}

/// The walk takes components off the queue until one has to be opened, the
/// queue is empty, or the policy rejects one.
///
/// - The root restarts the walk at the base directory under `IN_ROOT`, and
///   fails with `EXDEV` else.
/// - `..` fails with `EXDEV` unless `ALLOW_PARENT_COMPONENTS` is set. Below
///   the base directory it goes back to the parent that was kept. At the base
///   directory it stays there under `IN_ROOT`, and fails with `EXDEV` else.
/// - A name is opened in the current directory.
/// - With the queue empty the walk ends: with the current directory where it
///   is below the base directory, else with a duplicate of the base directory.
pub open spec fn advance(s: State) -> Outcome
    decreases s.queue.len(),
{
    if s.queue.len() == 0 {
        match s.current {
            Some(fd) => Outcome {
                state: s.finished(),
                close: s.parents,
                request: RequestView::Return(Ok(fd)),
            },
            None => Outcome {
                state: State { pending: Pending::Duplicate, ..s },
                close: Seq::empty(),
                request: RequestView::Dup { fd: s.base },
            },
        }
    } else {
        let rest = s.queue.subrange(1, s.queue.len() as int);
        let popped = State { queue: rest, ..s };
        match s.queue[0] {
            Token::Root => {
                if s.policy().allow_absolute {
                    advance(State { queue: rest, current: None, parents: Seq::empty(), ..s }).after_closing(
                        s.dirs(),
                    )
                } else {
                    popped.fail(s.host.errno.exdev)
                }
            },
            Token::Parent => {
                if !s.policy().allow_parent {
                    popped.fail(s.host.errno.exdev)
                } else {
                    match s.current {
                        Some(fd) => {
                            let up = if s.parents.len() > 0 {
                                State {
                                    queue: rest,
                                    current: Some(s.parents.last()),
                                    parents: s.parents.drop_last(),
                                    ..s
                                }
                            } else {
                                State { queue: rest, current: None, ..s }
                            };
                            advance(up).after_closing(seq![fd])
                        },
                        None => {
                            if s.policy().allow_absolute {
                                advance(popped)
                            } else {
                                popped.fail(s.host.errno.exdev)
                            }
                        },
                    }
                }
            },
            Token::Name(name) => {
                let opening = State { queue: rest, pending: Pending::Open { name }, ..s };
                Outcome {
                    state: opening,
                    close: Seq::empty(),
                    request: RequestView::Openat {
                        dirfd: s.dirfd(),
                        name,
                        flags: opening.open_flags(),
                        mode: s.mode,
                    },
                }
            },
        }
    }
}

/// The walk has opened `fd`, and waits for nothing. As the last component
/// `fd` is the result. Else the
/// walk goes on from it: the directory it came from is kept as a parent while
/// `..` is accepted, and closed else.
pub open spec fn descend(s: State, fd: i32) -> Outcome {
    if s.queue.len() == 0 {
        s.end(Ok(fd))
    } else if s.policy().allow_parent {
        advance(State { current: Some(fd), parents: s.dirs(), ..s })
    } else {
        advance(State { current: Some(fd), parents: Seq::empty(), ..s }).after_closing(s.dirs())
    }
}

/// The step-by-step walk begins: with the device of the base directory under
/// `NO_XDEV`, else with the first component.
pub open spec fn begin(s: State) -> Outcome {
    if s.policy().check_dev {
        Outcome {
            state: State { pending: Pending::BaseDevice, ..s },
            close: Seq::empty(),
            request: RequestView::Fstat { fd: s.base },
        }
    } else {
        advance(s)
    }
}

/// The structure that the kernel is given for a whole walk.
pub open spec fn kernel_how(s: State) -> RawOpenHow {
    RawOpenHow {
        flags: (s.final_flags | s.host.open.o_cloexec) as u64,
        mode: s.mode as u64,
        resolve: ResolveFlags::spec_for_lookup(s.flags),
    }
}

/// The state in which a walk of `path` begins.
pub open spec fn initial(
    host: Host,
    base: i32,
    path: Seq<u8>,
    flags: LookupFlags,
    final_flags: i32,
    mode: u32,
    sysconf_symloop_max: i64,
) -> State {
    State {
        host,
        flags,
        base,
        mode,
        limit: spec_symlink_limit(flags, sysconf_symloop_max),
        queue: components(path),
        current: None,
        parents: Seq::empty(),
        seen: 0,
        base_dev: 0,
        final_flags,
        pending: Pending::Nothing,
    }
}

/// The first step of a walk of `path` from the state `s`.
///
/// A path with a NUL byte is refused. Where the policy asks the kernel first,
/// a path with `..` among its components fails with `EXDEV` unless
/// `ALLOW_PARENT_COMPONENTS` is set, and any other path is handed to
/// `openat2` whole. Else the walk is made step by step.
pub open spec fn start(s: State, path: Seq<u8>) -> Outcome {
    if path.contains(0u8) {
        s.end(Err(Error::InvalidInput))
    } else if s.policy().use_kernel_fastpath {
        if !s.policy().allow_parent && has_parent(s.queue) {
            s.fail(s.host.errno.exdev)
        } else {
            Outcome {
                state: State { pending: Pending::Kernel, ..s },
                close: Seq::empty(),
                request: RequestView::Openat2 { dirfd: s.base, path, how: kernel_how(s) },
            }
        }
    } else {
        begin(s)
    }
}

/// The walk has read the target of a symbolic link. Over the limit it fails
/// with `ELOOP`. Else the link counts as followed; where it was the last
/// component and its target ends with a slash, the last open must find a
/// directory; and the components of the target go to the front of the queue.
/// A target with a NUL byte is refused.
pub open spec fn follow(s: State, target: Seq<u8>) -> Outcome {
    if s.seen >= s.limit {
        s.fail(s.host.errno.eloop)
    } else {
        let followed = State {
            seen: (s.seen + 1) as usize,
            final_flags: if s.queue.len() == 0 && ends_with_slash(target) {
                s.final_flags | s.host.open.o_directory
            } else {
                s.final_flags
            },
            ..s
        };
        if target.contains(0u8) {
            followed.end(Err(Error::InvalidInput))
        } else {
            advance(State { queue: components(target) + s.queue, ..followed })
        }
    }
}

/// The step that follows a reply.
///
/// - `openat2` returned a descriptor: it is the result. It failed: with
///   `ENOSYS` or `E2BIG` the walk is made step by step, any other error is the
///   result.
/// - `fstat` of the base directory returned: the walk notes its device and goes to the
///   first component. It failed: the error is the result.
/// - `openat` returned a descriptor: under `NO_XDEV` its device is asked for,
///   else the walk descends. It failed: where the error number, normalized, is
///   `ELOOP` or `ENOTDIR`, the name may be a symbolic link and its target is
///   asked for; any other error is the result.
/// - `fstat` of the opened file returned: where its device differs from that
///   of the base directory the walk fails with `EXDEV`, else it descends. It
///   failed: the error is the result. Either way the opened file is closed with
///   the rest.
/// - `readlinkat` returned a target: the link is followed. It failed with
///   `EINVAL`, so the name is no symbolic link: where the open had failed with
///   `ENOTDIR` that error is the result, else the name was a link a moment ago
///   and the walk fails with `EAGAIN`. It failed otherwise: that error is the
///   result.
/// - The duplication returned a descriptor or failed: that is the result.
/// - A reply that does not answer the request, or one to a walk that is over,
///   ends the walk as an invalid input.
pub open spec fn next(s: State, reply: ReplyView) -> Outcome {
    let idle = State { pending: Pending::Nothing, ..s };
    match (s.pending, reply) {
        (Pending::Kernel, ReplyView::Fd(fd)) => idle.end(Ok(fd)),
        (Pending::Kernel, ReplyView::Errno(e)) => {
            if spec_falls_back(s.host, e) {
                begin(idle)
            } else {
                idle.fail(e)
            }
        },
        (Pending::BaseDevice, ReplyView::Stat(id)) => advance(State { base_dev: id.dev, ..idle }),
        (Pending::BaseDevice, ReplyView::Errno(e)) => idle.fail(e),
        (Pending::Open { name }, ReplyView::Fd(fd)) => {
            if s.policy().check_dev {
                Outcome {
                    state: State { pending: Pending::Device { fd }, ..s },
                    close: Seq::empty(),
                    request: RequestView::Fstat { fd },
                }
            } else {
                descend(idle, fd)
            }
        },
        (Pending::Open { name }, ReplyView::Errno(e)) => {
            let errno = s.host.normalize(e);
            if errno == s.host.errno.eloop || errno == s.host.errno.enotdir {
                Outcome {
                    state: State { pending: Pending::Link { name, errno, raw: e }, ..s },
                    close: Seq::empty(),
                    request: RequestView::Readlinkat { dirfd: s.dirfd(), name },
                }
            } else {
                idle.fail(e)
            }
        },
        (Pending::Device { fd }, ReplyView::Stat(id)) => {
            if id.dev != s.base_dev {
                s.fail(s.host.errno.exdev)
            } else {
                descend(idle, fd)
            }
        },
        (Pending::Device { fd }, ReplyView::Errno(e)) => s.fail(e),
        (Pending::Link { name, errno, raw }, ReplyView::Target(target)) => follow(idle, target),
        (Pending::Link { name, errno, raw }, ReplyView::Errno(e)) => {
            if e == s.host.errno.einval {
                if errno == s.host.errno.enotdir {
                    idle.fail(raw)
                } else {
                    idle.fail(s.host.errno.eagain)
                }
            } else {
                idle.fail(e)
            }
        },
        (Pending::Duplicate, ReplyView::Fd(fd)) => idle.end(Ok(fd)),
        (Pending::Duplicate, ReplyView::Errno(e)) => idle.fail(e),
        _ => s.end(Err(Error::InvalidInput)),
    }
}

/// What a walk waits for.
#[derive(Debug)]
enum Waiting {
    Kernel,
    BaseDevice,
    Open { name: Vec<u8> },
    Device { fd: i32 },
    Link { name: Vec<u8>, errno: i32, raw: i32 },
    Duplicate,
    Nothing,
}

impl View for Waiting {
    type V = Pending;

    closed spec fn view(&self) -> Pending {
        match *self {
            Waiting::Kernel => Pending::Kernel,
            Waiting::BaseDevice => Pending::BaseDevice,
            Waiting::Open { name } => Pending::Open { name: name@ },
            Waiting::Device { fd } => Pending::Device { fd },
            Waiting::Link { name, errno, raw } => Pending::Link { name: name@, errno, raw },
            Waiting::Duplicate => Pending::Duplicate,
            Waiting::Nothing => Pending::Nothing,
        }
    }
}

/// One resolution of a path below a base directory.
#[derive(Debug)]
pub struct Walk {
    host: Host,
    flags: LookupFlags,
    base: i32,
    mode: u32,
    limit: usize,
    queue: VecDeque<Component>,
    current: Option<i32>,
    parents: Vec<i32>,
    seen: usize,
    base_dev: u64,
    final_flags: i32,
    waiting: Waiting,
}

impl View for Walk {
    type V = State;

    closed spec fn view(&self) -> State {
        State {
            host: self.host,
            flags: self.flags,
            base: self.base,
            mode: self.mode,
            limit: self.limit,
            queue: tokens(self.queue@),
            current: self.current,
            parents: self.parents@,
            seen: self.seen,
            base_dev: self.base_dev,
            final_flags: self.final_flags,
            pending: self.waiting@,
        }
    }
}

/// Whether a walk and the step it handed out are what `o` says.
pub open spec fn follows(r: (Walk, Step), o: Outcome) -> bool {
    &&& r.0@ == o.state
    &&& r.1.close@ == o.close
    &&& r.1.request@ == o.request
}

/// Begins the resolution of `path` below the directory `base`.
///
/// `final_flags` and `mode` are those for opening the last component, and
/// `sysconf_symloop_max` is what `sysconf(_SC_SYMLOOP_MAX)` returned.
pub fn open_file_secure(
    host: &Host,
    base: i32,
    path: &[u8],
    lookup_flags: LookupFlags,
    final_flags: i32,
    mode: u32,
    sysconf_symloop_max: i64,
) -> (r: (Walk, Step))
    ensures
        follows(
            r,
            start(
                initial(*host, base, path@, lookup_flags, final_flags, mode, sysconf_symloop_max),
                path@,
            ),
        ),
{
    let walk = Walk {
        host: *host,
        flags: lookup_flags,
        base,
        mode,
        limit: symlink_limit(lookup_flags, sysconf_symloop_max),
        queue: parse(path),
        current: None,
        parents: Vec::new(),
        seen: 0,
        base_dev: 0,
        final_flags,
        waiting: Waiting::Nothing,
    };
    if has_nul(path) {
        return walk.end(Err(Error::InvalidInput));
    }
    let policy = lookup_flags.policy(host);
    if !policy.use_kernel_fastpath {
        walk.begin()
    } else if !policy.allow_parent && contains_parent(path) {
        walk.fail(host.errno.exdev)
    } else {
        let how = RawOpenHow::from_how(&how_for(lookup_flags, final_flags, mode), host);
        let request = Request::Openat2 { dirfd: base, path: slice_to_vec(path), how };
        (Walk { waiting: Waiting::Kernel, ..walk }, Step { close: Vec::new(), request })
    }
}

impl Walk {
    /// Whether the walk is over.
    pub fn is_done(&self) -> (r: bool)
        ensures
            r == (self@.pending is Nothing),
    {
        match self.waiting {
            Waiting::Nothing => true,
            _ => false,
        }
    }

    /// Whether the walk waits for a reply of this kind.
    pub fn accepts(&self, reply: &Reply) -> (r: bool)
        ensures
            r == self@.accepts(reply@),
    {
        match self.waiting {
            Waiting::Kernel | Waiting::Open { .. } | Waiting::Duplicate => match reply {
                Reply::Fd(_) | Reply::Errno(_) => true,
                _ => false,
            },
            Waiting::BaseDevice | Waiting::Device { .. } => match reply {
                Reply::Stat(_) | Reply::Errno(_) => true,
                _ => false,
            },
            Waiting::Link { .. } => match reply {
                Reply::Target(_) | Reply::Errno(_) => true,
                _ => false,
            },
            Waiting::Nothing => false,
        }
    }

    /// Takes the reply to the request that the walk handed out last, and
    /// hands out the next step.
    pub fn step(self, reply: Reply) -> (r: (Walk, Step))
        ensures
            follows(r, next(self@, reply@)),
    {
        let Walk {
            host,
            flags,
            base,
            mode,
            limit,
            queue,
            current,
            parents,
            seen,
            base_dev,
            final_flags,
            waiting,
        } = self;
        let errno = host.errno;
        let idle = Walk {
            host,
            flags,
            base,
            mode,
            limit,
            queue,
            current,
            parents,
            seen,
            base_dev,
            final_flags,
            waiting: Waiting::Nothing,
        };
        match (waiting, reply) {
            (Waiting::Kernel, Reply::Fd(fd)) => idle.end(Ok(fd)),
            (Waiting::Kernel, Reply::Errno(e)) => {
                if falls_back(&host, e) {
                    idle.begin()
                } else {
                    idle.fail(e)
                }
            },
            (Waiting::BaseDevice, Reply::Stat(id)) => {
                (Walk { base_dev: id.dev, ..idle }).advance(Vec::new())
            },
            (Waiting::BaseDevice, Reply::Errno(e)) => idle.fail(e),
            (Waiting::Open { name }, Reply::Fd(fd)) => {
                if flags.no_xdev() {
                    (
                        Walk { waiting: Waiting::Device { fd }, ..idle },
                        Step { close: Vec::new(), request: Request::Fstat { fd } },
                    )
                } else {
                    idle.descend(fd)
                }
            },
            (Waiting::Open { name }, Reply::Errno(e)) => {
                let normal = host.normalize(e);
                if normal == errno.eloop || normal == errno.enotdir {
                    let dirfd = idle.dirfd();
                    let request = Request::Readlinkat { dirfd, name: slice_to_vec(name.as_slice()) };
                    (
                        Walk { waiting: Waiting::Link { name, errno: normal, raw: e }, ..idle },
                        Step { close: Vec::new(), request },
                    )
                } else {
                    idle.fail(e)
                }
            },
            (Waiting::Device { fd }, Reply::Stat(id)) => {
                if id.dev != base_dev {
                    (Walk { waiting: Waiting::Device { fd }, ..idle }).fail(errno.exdev)
                } else {
                    idle.descend(fd)
                }
            },
            (Waiting::Device { fd }, Reply::Errno(e)) => {
                (Walk { waiting: Waiting::Device { fd }, ..idle }).fail(e)
            },
            (Waiting::Link { name, errno: normal, raw }, Reply::Target(target)) => {
                idle.follow(target)
            },
            (Waiting::Link { name, errno: normal, raw }, Reply::Errno(e)) => {
                if e != errno.einval {
                    idle.fail(e)
                } else if normal == errno.enotdir {
                    idle.fail(raw)
                } else {
                    idle.fail(errno.eagain)
                }
            },
            (Waiting::Duplicate, Reply::Fd(fd)) => idle.end(Ok(fd)),
            (Waiting::Duplicate, Reply::Errno(e)) => idle.fail(e),
            (waiting, _) => (Walk { waiting, ..idle }).end(Err(Error::InvalidInput)),
        }
    }

    /// The descriptor of the directory that the walk has reached.
    fn dirfd(&self) -> (r: i32)
        ensures
            r == self@.dirfd(),
    {
        match self.current {
            Some(fd) => fd,
            None => self.base,
        }
    }

    /// Ends the walk with `result`, and has every descriptor closed that it
    /// holds.
    fn end(self, result: Result<i32, Error>) -> (r: (Walk, Step))
        ensures
            follows(r, self@.end(result)),
    {
        let mut walk = self;
        let mut close: Vec<i32> = Vec::new();
        close.append(&mut walk.parents);
        match walk.current {
            Some(fd) => {
                close.push(fd);
            },
            None => {},
        }
        match walk.waiting {
            Waiting::Device { fd } => {
                close.push(fd);
            },
            _ => {},
        }
        walk.current = None;
        walk.waiting = Waiting::Nothing;
        (walk, Step { close, request: Request::Return(result) })
    }

    /// Ends the walk with the error number `errno`.
    fn fail(self, errno: i32) -> (r: (Walk, Step))
        ensures
            follows(r, self@.fail(errno)),
    {
        self.end(Err(Error::Os(errno)))
    }

    /// Begins the step-by-step walk.
    fn begin(self) -> (r: (Walk, Step))
        ensures
            follows(r, begin(self@)),
    {
        if self.flags.no_xdev() {
            let fd = self.base;
            (
                Walk { waiting: Waiting::BaseDevice, ..self },
                Step { close: Vec::new(), request: Request::Fstat { fd } },
            )
        } else {
            self.advance(Vec::new())
        }
    }

    /// Goes on from the file `fd` that the walk has opened.
    fn descend(self, fd: i32) -> (r: (Walk, Step))
        requires
            self@.pending is Nothing,
        ensures
            follows(r, descend(self@, fd)),
    {
        let mut walk = self;
        if walk.queue.len() == 0 {
            return walk.end(Ok(fd));
        }
        let mut close: Vec<i32> = Vec::new();
        if walk.flags.allow_parent_components() {
            match walk.current {
                Some(dir) => {
                    walk.parents.push(dir);
                },
                None => {},
            }
        } else {
            close.append(&mut walk.parents);
            match walk.current {
                Some(dir) => {
                    close.push(dir);
                },
                None => {},
            }
        }
        walk.current = Some(fd);
        walk.advance(close)
    }

    /// Follows a symbolic link whose target has been read.
    fn follow(self, target: Vec<u8>) -> (r: (Walk, Step))
        ensures
            follows(r, follow(self@, target@)),
    {
        if self.seen >= self.limit {
            let errno = self.host.errno.eloop;
            return self.fail(errno);
        }
        let mut walk = self;
        walk.seen = walk.seen + 1;
        if walk.queue.len() == 0 && has_trailing_slash(target.as_slice()) {
            walk.final_flags = walk.final_flags | walk.host.open.o_directory;
        }
        if has_nul(target.as_slice()) {
            return walk.end(Err(Error::InvalidInput));
        }
        let mut spliced = parse(target.as_slice());
        let ghost entered = walk@;
        let ghost rest = tokens(walk.queue@);
        while spliced.len() > 0
            invariant
                tokens(spliced@) + tokens(walk.queue@) == components(target@) + rest,
                walk@ == (State { queue: tokens(walk.queue@), ..entered }),
            decreases spliced@.len(),
        {
            match spliced.pop_back() {
                Some(c) => {
                    walk.queue.push_front(c);
                },
                None => {},
            }
        }
        walk.advance(Vec::new())
    }

    /// Takes components off the queue until the walk has a request to make,
    /// after `close` has been closed.
    #[verifier::loop_isolation(false)]
    fn advance(self, close: Vec<i32>) -> (r: (Walk, Step))
        ensures
            follows(r, advance(self@).after_closing(close@)),
    {
        let ghost goal = advance(self@).after_closing(close@);
        let mut walk = self;
        let mut close = close;
        let policy = walk.flags.policy(&walk.host);
        let exdev = walk.host.errno.exdev;
        loop
            invariant
                policy == walk@.policy(),
                exdev == walk@.host.errno.exdev,
                advance(walk@).after_closing(close@) == goal,
            decreases walk.queue@.len(),
        {
            let ghost s = walk@;
            let ghost closed = close@;
            let next = walk.queue.pop_front();
            assert(s.queue.len() > 0 ==> tokens(walk.queue@) =~= s.queue.subrange(
                1,
                s.queue.len() as int,
            ));
            match next {
                None => {
                    return match walk.current {
                        Some(fd) => {
                            close.append(&mut walk.parents);
                            walk.current = None;
                            walk.waiting = Waiting::Nothing;
                            (walk, Step { close, request: Request::Return(Ok(fd)) })
                        },
                        None => {
                            let fd = walk.base;
                            walk.waiting = Waiting::Duplicate;
                            (walk, Step { close, request: Request::Dup { fd } })
                        },
                    };
                },
                Some(Component::Root) => {
                    if !policy.allow_absolute {
                        return walk.fail_after(close, exdev);
                    }
                    close.append(&mut walk.parents);
                    match walk.current {
                        Some(fd) => {
                            close.push(fd);
                        },
                        None => {},
                    }
                    walk.current = None;
                    assert(advance(walk@).after_closing(close@).close =~= advance(
                        s,
                    ).after_closing(closed).close);
                },
                Some(Component::Parent) => {
                    if !policy.allow_parent {
                        return walk.fail_after(close, exdev);
                    }
                    match walk.current {
                        Some(fd) => {
                            close.push(fd);
                            walk.current = walk.parents.pop();
                            assert(advance(walk@).after_closing(close@).close =~= advance(
                                s,
                            ).after_closing(closed).close);
                        },
                        None => {
                            if !policy.allow_absolute {
                                return walk.fail_after(close, exdev);
                            }
                        },
                    }
                },
                Some(Component::Name(name)) => {
                    let wanted = if walk.queue.len() == 0 {
                        walk.final_flags
                    } else {
                        walk.host.base_dir_flags()
                    };
                    let request = Request::Openat {
                        dirfd: walk.dirfd(),
                        name: slice_to_vec(name.as_slice()),
                        flags: wanted | walk.host.open.o_nofollow | walk.host.open.o_cloexec,
                        mode: walk.mode,
                    };
                    walk.waiting = Waiting::Open { name };
                    return (walk, Step { close, request });
                },
            }
        }
    }

    /// Ends the walk with the error number `errno`: `close` is closed first,
    /// then what the walk holds.
    fn fail_after(self, close: Vec<i32>, errno: i32) -> (r: (Walk, Step))
        ensures
            follows(r, self@.fail(errno).after_closing(close@)),
    {
        let (walk, step) = self.fail(errno);
        let mut all = close;
        let mut rest = step.close;
        all.append(&mut rest);
        (walk, Step { close: all, request: step.request })
    }
}

} // verus!
