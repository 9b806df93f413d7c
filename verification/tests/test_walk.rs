use openat_secure::error::Error;
use openat_secure::flags::LookupFlags;
use openat_secure::host::{Errnos, Host, Linux, OpenFlags};
use openat_secure::open::{open_file_secure, Reply, Request, Step, Walk};
use openat_secure::openat2::RawOpenHow;
use openat_secure::util::FileId;

const E2BIG: i32 = 7;
const EAGAIN: i32 = 11;
const EACCES: i32 = 13;
const EINVAL: i32 = 22;
const ELOOP: i32 = 40;
const EMLINK: i32 = 31;
const ENOENT: i32 = 2;
const ENOSYS: i32 = 38;
const ENOTDIR: i32 = 20;
const EXDEV: i32 = 18;

const O_RDONLY: i32 = 0;
const O_CREAT: i32 = 0o100;
const O_DIRECTORY: i32 = 0o200000;
const O_NOFOLLOW: i32 = 0o400000;
const O_CLOEXEC: i32 = 0o2000000;
const O_PATH: i32 = 0o10000000;

const BASE: i32 = 3;

/// A host with the numbers of Linux on x86-64.
fn linux() -> Host {
    Host {
        errno: Errnos {
            e2big: E2BIG,
            eagain: EAGAIN,
            ebusy: 16,
            eexist: 17,
            einval: EINVAL,
            eisdir: 21,
            eloop: ELOOP,
            enoent: ENOENT,
            enosys: ENOSYS,
            enotdir: ENOTDIR,
            enotempty: 39,
            enotsup: 95,
            exdev: EXDEV,
        },
        open: OpenFlags {
            o_rdonly: O_RDONLY,
            o_wronly: 1,
            o_rdwr: 2,
            o_creat: O_CREAT,
            o_excl: 0o200,
            o_trunc: 0o1000,
            o_append: 0o2000,
            o_directory: O_DIRECTORY,
            o_nofollow: O_NOFOLLOW,
            o_cloexec: O_CLOEXEC,
        },
        linux: Some(Linux { o_path: O_PATH, o_tmpfile: 0o20200000, at_fdcwd: -100 }),
        nofollow_errno: None,
    }
}

/// A host that is not Linux, and reports a symbolic link as `EMLINK`.
fn bsd() -> Host {
    Host { linux: None, nofollow_errno: Some(EMLINK), ..linux() }
}

fn flags(bits: u64) -> LookupFlags {
    LookupFlags::from_bits(bits).unwrap()
}

const NO_SYMLINKS: u64 = LookupFlags::NO_SYMLINKS;
const IN_ROOT: u64 = LookupFlags::IN_ROOT;
const ALLOW_PARENT: u64 = LookupFlags::ALLOW_PARENT_COMPONENTS;
const NO_XDEV: u64 = LookupFlags::NO_XDEV;
const XDEV_BIND_OK: u64 = LookupFlags::XDEV_BIND_OK;

/// Flags that keep a walk on Linux away from the kernel's own resolution.
const SLOW: u64 = NO_XDEV | XDEV_BIND_OK;

fn begin(host: &Host, path: &[u8], bits: u64, final_flags: i32) -> (Walk, Step) {
    open_file_secure(host, BASE, path, flags(bits), final_flags, 0o644, -1)
}

fn openat(dirfd: i32, name: &[u8], flags: i32) -> Request {
    Request::Openat { dirfd, name: name.to_vec(), flags, mode: 0o644 }
}

fn readlinkat(dirfd: i32, name: &[u8]) -> Request {
    Request::Readlinkat { dirfd, name: name.to_vec() }
}

fn stat(dev: u64) -> Reply {
    Reply::Stat(FileId { dev, ino: 1 })
}

const INTERIOR: i32 = O_PATH | O_DIRECTORY | O_NOFOLLOW | O_CLOEXEC;
const LAST: i32 = O_RDONLY | O_NOFOLLOW | O_CLOEXEC;

/// Hands the replies to the walk in turn, and checks each step against what
/// is expected.
fn script(start: (Walk, Step), turns: Vec<(Reply, Vec<i32>, Request)>) {
    let (mut walk, _) = start;
    for (reply, close, request) in turns {
        assert!(walk.accepts(&reply));
        let (w, step) = walk.step(reply);
        assert_eq!(step, Step { close, request });
        walk = w;
    }
}

#[test]
fn descends_one_component_at_a_time() {
    let start = begin(&bsd(), b"a/b/c", 0, O_RDONLY);
    assert_eq!(start.1, Step { close: vec![], request: openat(BASE, b"a", O_DIRECTORY | O_NOFOLLOW | O_CLOEXEC) });
    assert!(!start.0.is_done());
    script(
        start,
        vec![
            (Reply::Fd(10), vec![], openat(10, b"b", O_DIRECTORY | O_NOFOLLOW | O_CLOEXEC)),
            // Without "..", the directory that was walked through is closed at once
            (Reply::Fd(11), vec![10], openat(11, b"c", LAST)),
            (Reply::Fd(12), vec![11], Request::Return(Ok(12))),
        ],
    );
}

#[test]
fn linux_opens_directories_for_the_path_only() {
    let start = begin(&linux(), b"a/b", SLOW, O_RDONLY);
    assert_eq!(start.1, Step { close: vec![], request: Request::Fstat { fd: BASE } });
    script(
        start,
        vec![
            (stat(5), vec![], openat(BASE, b"a", INTERIOR)),
            (Reply::Fd(10), vec![], Request::Fstat { fd: 10 }),
            (stat(5), vec![], openat(10, b"b", LAST)),
            (Reply::Fd(11), vec![], Request::Fstat { fd: 11 }),
            (stat(5), vec![10], Request::Return(Ok(11))),
        ],
    );
}

#[test]
fn another_device_is_refused() {
    let start = begin(&linux(), b"a/b", SLOW, O_RDONLY);
    script(
        start,
        vec![
            (stat(5), vec![], openat(BASE, b"a", INTERIOR)),
            (Reply::Fd(10), vec![], Request::Fstat { fd: 10 }),
            (stat(5), vec![], openat(10, b"b", LAST)),
            (Reply::Fd(11), vec![], Request::Fstat { fd: 11 }),
            // The file that was opened is closed with the rest
            (stat(6), vec![10, 11], Request::Return(Err(Error::Os(EXDEV)))),
        ],
    );
}

#[test]
fn failing_fstat_ends_the_walk() {
    script(
        begin(&linux(), b"a", SLOW, O_RDONLY),
        vec![(Reply::Errno(EACCES), vec![], Request::Return(Err(Error::Os(EACCES))))],
    );
    script(
        begin(&linux(), b"a", SLOW, O_RDONLY),
        vec![
            (stat(5), vec![], openat(BASE, b"a", LAST)),
            (Reply::Fd(10), vec![], Request::Fstat { fd: 10 }),
            (Reply::Errno(EACCES), vec![10], Request::Return(Err(Error::Os(EACCES)))),
        ],
    );
}

#[test]
fn kernel_is_asked_first_on_linux() {
    let start = begin(&linux(), b"a/b", NO_SYMLINKS, O_CREAT);
    let how = RawOpenHow {
        flags: (O_CREAT | O_CLOEXEC) as u64,
        mode: 0o644,
        // NO_MAGICLINKS | NO_SYMLINKS | BENEATH
        resolve: 0x02 | 0x04 | 0x08,
    };
    assert_eq!(
        start.1,
        Step { close: vec![], request: Request::Openat2 { dirfd: BASE, path: b"a/b".to_vec(), how } }
    );
    script(start, vec![(Reply::Fd(9), vec![], Request::Return(Ok(9)))]);

    let start = begin(&linux(), b"/a", IN_ROOT | NO_XDEV, O_RDONLY);
    let how = RawOpenHow {
        flags: O_CLOEXEC as u64,
        mode: 0o644,
        // NO_XDEV | NO_MAGICLINKS | IN_ROOT
        resolve: 0x01 | 0x02 | 0x10,
    };
    assert_eq!(
        start.1,
        Step { close: vec![], request: Request::Openat2 { dirfd: BASE, path: b"/a".to_vec(), how } }
    );
}

#[test]
fn kernel_errors_are_passed_on() {
    script(
        begin(&linux(), b"a", 0, O_RDONLY),
        vec![(Reply::Errno(ENOENT), vec![], Request::Return(Err(Error::Os(ENOENT))))],
    );
    script(
        begin(&linux(), b"a", 0, O_RDONLY),
        vec![(Reply::Errno(EXDEV), vec![], Request::Return(Err(Error::Os(EXDEV))))],
    );
}

#[test]
fn walk_is_made_step_by_step_where_the_kernel_cannot() {
    for errno in [ENOSYS, E2BIG] {
        script(
            begin(&linux(), b"a", 0, O_RDONLY),
            vec![
                (Reply::Errno(errno), vec![], openat(BASE, b"a", LAST)),
                (Reply::Fd(10), vec![], Request::Return(Ok(10))),
            ],
        );
        script(
            begin(&linux(), b"a", NO_XDEV, O_RDONLY),
            vec![
                (Reply::Errno(errno), vec![], Request::Fstat { fd: BASE }),
                (stat(1), vec![], openat(BASE, b"a", LAST)),
            ],
        );
    }
}

#[test]
fn parent_in_the_path_is_not_handed_to_the_kernel() {
    for path in [&b".."[..], b"a/..", b"a/../b", b"../a", b"a/b/../.."] {
        let (walk, step) = begin(&linux(), path, 0, O_RDONLY);
        assert!(walk.is_done());
        assert_eq!(step, Step { close: vec![], request: Request::Return(Err(Error::Os(EXDEV))) });
        let (_, step) = begin(&linux(), path, IN_ROOT, O_RDONLY);
        assert_eq!(step.request, Request::Return(Err(Error::Os(EXDEV))));
        let (_, step) = begin(&linux(), path, ALLOW_PARENT, O_RDONLY);
        assert!(matches!(step.request, Request::Openat2 { .. }));
    }
    // A name that only looks like ".." is a name
    let (_, step) = begin(&linux(), b"a/..b/...", 0, O_RDONLY);
    assert!(matches!(step.request, Request::Openat2 { .. }));
}

#[test]
fn parent_is_refused_without_the_flag() {
    script(
        begin(&bsd(), b"a/../b", 0, O_RDONLY),
        vec![(Reply::Fd(10), vec![10], Request::Return(Err(Error::Os(EXDEV))))],
    );
    let (_, step) = begin(&bsd(), b"..", IN_ROOT, O_RDONLY);
    assert_eq!(step.request, Request::Return(Err(Error::Os(EXDEV))));
}

#[test]
fn parent_goes_back_to_the_directory_that_was_kept() {
    let interior = O_DIRECTORY | O_NOFOLLOW | O_CLOEXEC;
    script(
        begin(&bsd(), b"a/b/../c/../../d", ALLOW_PARENT, O_RDONLY),
        vec![
            (Reply::Fd(10), vec![], openat(10, b"b", interior)),
            // ".." closes b and goes on from a
            (Reply::Fd(11), vec![11], openat(10, b"c", interior)),
            // "../.." closes c, then a, and goes on from the base directory
            (Reply::Fd(12), vec![12, 10], openat(BASE, b"d", LAST)),
            (Reply::Fd(13), vec![], Request::Return(Ok(13))),
        ],
    );
}

#[test]
fn parents_are_kept_while_parent_is_allowed() {
    let interior = O_DIRECTORY | O_NOFOLLOW | O_CLOEXEC;
    script(
        begin(&bsd(), b"a/b/c", ALLOW_PARENT, O_RDONLY),
        vec![
            (Reply::Fd(10), vec![], openat(10, b"b", interior)),
            (Reply::Fd(11), vec![], openat(11, b"c", LAST)),
            (Reply::Fd(12), vec![10, 11], Request::Return(Ok(12))),
        ],
    );
    script(
        begin(&bsd(), b"a/b/..", ALLOW_PARENT, O_RDONLY),
        vec![
            // "b" is not the last component: ".." follows
            (Reply::Fd(10), vec![], openat(10, b"b", interior)),
            (Reply::Errno(ENOENT), vec![10], Request::Return(Err(Error::Os(ENOENT)))),
        ],
    );
    // A path that ends in ".." returns the directory that it went back to
    script(
        begin(&bsd(), b"a/b/c/..", ALLOW_PARENT, O_RDONLY),
        vec![
            (Reply::Fd(10), vec![], openat(10, b"b", interior)),
            (Reply::Fd(11), vec![], openat(11, b"c", interior)),
            (Reply::Fd(12), vec![12, 10], Request::Return(Ok(11))),
        ],
    );
}

#[test]
fn parent_at_the_base_directory() {
    let (_, step) = begin(&bsd(), b"..", ALLOW_PARENT, O_RDONLY);
    assert_eq!(step.request, Request::Return(Err(Error::Os(EXDEV))));
    script(
        begin(&bsd(), b"a/../..", ALLOW_PARENT, O_RDONLY),
        vec![(Reply::Fd(10), vec![10], Request::Return(Err(Error::Os(EXDEV))))],
    );
    // Under IN_ROOT it stays at the base directory
    let (_, step) = begin(&bsd(), b"../..", ALLOW_PARENT | IN_ROOT, O_RDONLY);
    assert_eq!(step, Step { close: vec![], request: Request::Dup { fd: BASE } });
    script(
        begin(&bsd(), b"a/../../b", ALLOW_PARENT | IN_ROOT, O_RDONLY),
        vec![(Reply::Fd(10), vec![10], openat(BASE, b"b", LAST))],
    );
}

#[test]
fn root_restarts_at_the_base_directory_under_in_root() {
    let (_, step) = begin(&bsd(), b"/a", 0, O_RDONLY);
    assert_eq!(step.request, Request::Return(Err(Error::Os(EXDEV))));
    let (_, step) = begin(&bsd(), b"/", ALLOW_PARENT, O_RDONLY);
    assert_eq!(step.request, Request::Return(Err(Error::Os(EXDEV))));
    let (_, step) = begin(&bsd(), b"//a", IN_ROOT, O_RDONLY);
    assert_eq!(step.request, openat(BASE, b"a", LAST));
    let (_, step) = begin(&bsd(), b"/", IN_ROOT, O_RDONLY);
    assert_eq!(step.request, Request::Dup { fd: BASE });
}

#[test]
fn nothing_to_walk_duplicates_the_base_directory() {
    for path in [&b"."[..], b"", b"./", b"./.", b".//./"] {
        let start = begin(&bsd(), path, 0, O_RDONLY);
        assert_eq!(start.1, Step { close: vec![], request: Request::Dup { fd: BASE } });
        script(start, vec![(Reply::Fd(7), vec![], Request::Return(Ok(7)))]);
    }
    script(
        begin(&bsd(), b".", 0, O_RDONLY),
        vec![(Reply::Errno(24), vec![], Request::Return(Err(Error::Os(24))))],
    );
    script(
        begin(&bsd(), b".", NO_XDEV, O_RDONLY),
        vec![(stat(1), vec![], Request::Dup { fd: BASE })],
    );
}

#[test]
fn symlink_target_takes_the_place_of_the_name() {
    let interior = O_DIRECTORY | O_NOFOLLOW | O_CLOEXEC;
    script(
        begin(&bsd(), b"a/l/z", 0, O_RDONLY),
        vec![
            (Reply::Fd(10), vec![], openat(10, b"l", interior)),
            (Reply::Errno(ENOTDIR), vec![], readlinkat(10, b"l")),
            // The components of the target are walked before the rest of the path
            (Reply::Target(b"x/./y".to_vec()), vec![], openat(10, b"x", interior)),
            (Reply::Fd(11), vec![10], openat(11, b"y", interior)),
            (Reply::Fd(12), vec![11], openat(12, b"z", LAST)),
            (Reply::Fd(13), vec![12], Request::Return(Ok(13))),
        ],
    );
}

#[test]
fn last_symlink_is_opened_with_the_final_flags() {
    script(
        begin(&bsd(), b"l", 0, O_RDONLY),
        vec![
            (Reply::Errno(ELOOP), vec![], readlinkat(BASE, b"l")),
            (Reply::Target(b"c".to_vec()), vec![], openat(BASE, b"c", LAST)),
            (Reply::Fd(10), vec![], Request::Return(Ok(10))),
        ],
    );
}

#[test]
fn target_with_a_trailing_slash_must_be_a_directory() {
    script(
        begin(&bsd(), b"h", 0, O_RDONLY),
        vec![
            (Reply::Errno(ELOOP), vec![], readlinkat(BASE, b"h")),
            (Reply::Target(b"c/".to_vec()), vec![], openat(BASE, b"c", LAST | O_DIRECTORY)),
            (Reply::Errno(ENOTDIR), vec![], readlinkat(BASE, b"c")),
            (Reply::Errno(EINVAL), vec![], Request::Return(Err(Error::Os(ENOTDIR)))),
        ],
    );
    // Only for the last component
    script(
        begin(&bsd(), b"h/x", 0, O_RDONLY),
        vec![
            (Reply::Errno(ELOOP), vec![], readlinkat(BASE, b"h")),
            (
                Reply::Target(b"c/".to_vec()),
                vec![],
                openat(BASE, b"c", O_DIRECTORY | O_NOFOLLOW | O_CLOEXEC),
            ),
            (Reply::Fd(10), vec![], openat(10, b"x", LAST)),
        ],
    );
}

#[test]
fn absolute_target_needs_in_root() {
    script(
        begin(&bsd(), b"a/e", 0, O_RDONLY),
        vec![
            (Reply::Fd(10), vec![], openat(10, b"e", LAST)),
            (Reply::Errno(ELOOP), vec![], readlinkat(10, b"e")),
            (Reply::Target(b"/c".to_vec()), vec![10], Request::Return(Err(Error::Os(EXDEV)))),
        ],
    );
    script(
        begin(&bsd(), b"a/e", IN_ROOT, O_RDONLY),
        vec![
            (Reply::Fd(10), vec![], openat(10, b"e", LAST)),
            (Reply::Errno(ELOOP), vec![], readlinkat(10, b"e")),
            // The walk goes on from the base directory
            (Reply::Target(b"/c".to_vec()), vec![10], openat(BASE, b"c", LAST)),
        ],
    );
}

#[test]
fn parent_in_a_target_needs_the_flag() {
    script(
        begin(&bsd(), b"a/g", IN_ROOT, O_RDONLY),
        vec![
            (Reply::Fd(10), vec![], openat(10, b"g", LAST)),
            (Reply::Errno(ELOOP), vec![], readlinkat(10, b"g")),
            (Reply::Target(b"../x".to_vec()), vec![10], Request::Return(Err(Error::Os(EXDEV)))),
        ],
    );
    script(
        begin(&bsd(), b"a/g", ALLOW_PARENT, O_RDONLY),
        vec![
            (Reply::Fd(10), vec![], openat(10, b"g", LAST)),
            (Reply::Errno(ELOOP), vec![], readlinkat(10, b"g")),
            (Reply::Target(b"../x".to_vec()), vec![10], openat(BASE, b"x", LAST)),
        ],
    );
}

#[test]
fn no_symlinks_fails_with_eloop() {
    for open_errno in [ELOOP, ENOTDIR] {
        script(
            begin(&bsd(), b"d", NO_SYMLINKS, O_RDONLY),
            vec![
                (Reply::Errno(open_errno), vec![], readlinkat(BASE, b"d")),
                (Reply::Target(b"c".to_vec()), vec![], Request::Return(Err(Error::Os(ELOOP)))),
            ],
        );
    }
}

#[test]
fn not_a_directory_and_not_a_symlink() {
    script(
        begin(&bsd(), b"c/x", 0, O_RDONLY),
        vec![
            (Reply::Errno(ENOTDIR), vec![], readlinkat(BASE, b"c")),
            (Reply::Errno(EINVAL), vec![], Request::Return(Err(Error::Os(ENOTDIR)))),
        ],
    );
}

#[test]
fn symlink_that_is_gone_is_a_race() {
    script(
        begin(&bsd(), b"a/l", 0, O_RDONLY),
        vec![
            (Reply::Fd(10), vec![], openat(10, b"l", LAST)),
            (Reply::Errno(ELOOP), vec![], readlinkat(10, b"l")),
            (Reply::Errno(EINVAL), vec![10], Request::Return(Err(Error::Os(EAGAIN)))),
        ],
    );
}

#[test]
fn other_errors_are_passed_on() {
    script(
        begin(&bsd(), b"a/l", 0, O_RDONLY),
        vec![
            (Reply::Fd(10), vec![], openat(10, b"l", LAST)),
            (Reply::Errno(ELOOP), vec![], readlinkat(10, b"l")),
            (Reply::Errno(EACCES), vec![10], Request::Return(Err(Error::Os(EACCES)))),
        ],
    );
    script(
        begin(&bsd(), b"a/l", 0, O_RDONLY),
        vec![
            (Reply::Fd(10), vec![], openat(10, b"l", LAST)),
            (Reply::Errno(ENOENT), vec![10], Request::Return(Err(Error::Os(ENOENT)))),
        ],
    );
}

#[test]
fn host_alias_of_eloop_is_normalized() {
    // EMLINK stands for ELOOP on this host
    script(
        begin(&bsd(), b"l", 0, O_RDONLY),
        vec![
            (Reply::Errno(EMLINK), vec![], readlinkat(BASE, b"l")),
            (Reply::Errno(EINVAL), vec![], Request::Return(Err(Error::Os(EAGAIN)))),
        ],
    );
    script(
        begin(&bsd(), b"l", 0, O_RDONLY),
        vec![
            (Reply::Errno(EMLINK), vec![], readlinkat(BASE, b"l")),
            (Reply::Target(b"c".to_vec()), vec![], openat(BASE, b"c", LAST)),
        ],
    );
    // And for itself elsewhere
    script(
        begin(&linux(), b"l", SLOW, O_RDONLY),
        vec![
            (stat(1), vec![], openat(BASE, b"l", LAST)),
            (Reply::Errno(EMLINK), vec![], Request::Return(Err(Error::Os(EMLINK)))),
        ],
    );
}

#[test]
fn symlink_limit_is_forty_by_default() {
    let (mut walk, mut step) = begin(&bsd(), b"l", 0, O_RDONLY);
    let mut opens = 0;
    let mut followed = 0;
    loop {
        match step.request {
            Request::Openat { .. } => {
                opens += 1;
                let (w, s) = walk.step(Reply::Errno(ELOOP));
                walk = w;
                step = s;
            }
            Request::Readlinkat { .. } => {
                let (w, s) = walk.step(Reply::Target(b"l".to_vec()));
                walk = w;
                step = s;
                if !walk.is_done() {
                    followed += 1;
                }
            }
            Request::Return(r) => {
                assert_eq!(r, Err(Error::Os(ELOOP)));
                break;
            }
            _ => unreachable!(),
        }
    }
    assert_eq!(followed, 40);
    // One component, forty links of one component each
    assert_eq!(opens, 41);
}

#[test]
fn symlink_limit_of_the_host() {
    let (walk, _) = open_file_secure(&bsd(), BASE, b"l", flags(0), O_RDONLY, 0, 1);
    let (walk, _) = walk.step(Reply::Errno(ELOOP));
    let (walk, step) = walk.step(Reply::Target(b"m".to_vec()));
    assert_eq!(step.request, Request::Openat { dirfd: BASE, name: b"m".to_vec(), flags: LAST, mode: 0 });
    let (walk, _) = walk.step(Reply::Errno(ELOOP));
    let (_, step) = walk.step(Reply::Target(b"n".to_vec()));
    assert_eq!(step.request, Request::Return(Err(Error::Os(ELOOP))));
}

#[test]
fn nul_bytes_are_refused() {
    for host in [linux(), bsd()] {
        let (walk, step) = begin(&host, b"a\0b", 0, O_RDONLY);
        assert!(walk.is_done());
        assert_eq!(step, Step { close: vec![], request: Request::Return(Err(Error::InvalidInput)) });
    }
    script(
        begin(&bsd(), b"a/l", 0, O_RDONLY),
        vec![
            (Reply::Fd(10), vec![], openat(10, b"l", LAST)),
            (Reply::Errno(ELOOP), vec![], readlinkat(10, b"l")),
            (Reply::Target(b"x\0".to_vec()), vec![10], Request::Return(Err(Error::InvalidInput))),
        ],
    );
    assert_eq!(Error::InvalidInput.raw_os_error(), None);
    assert_eq!(Error::Os(EXDEV).raw_os_error(), Some(EXDEV));
}

#[test]
fn reply_of_the_wrong_kind_ends_the_walk() {
    let (walk, _) = begin(&bsd(), b"a/b", ALLOW_PARENT, O_RDONLY);
    let (walk, _) = walk.step(Reply::Fd(10));
    assert!(!walk.accepts(&stat(1)));
    assert!(!walk.accepts(&Reply::Target(vec![])));
    assert!(walk.accepts(&Reply::Fd(1)));
    assert!(walk.accepts(&Reply::Errno(1)));
    let (walk, step) = walk.step(stat(1));
    assert_eq!(step, Step { close: vec![10], request: Request::Return(Err(Error::InvalidInput)) });
    assert!(walk.is_done());

    // A walk that is over accepts nothing
    assert!(!walk.accepts(&Reply::Fd(1)));
    let (walk, step) = walk.step(Reply::Fd(11));
    assert_eq!(step, Step { close: vec![], request: Request::Return(Err(Error::InvalidInput)) });
    assert!(walk.is_done());
}

#[test]
fn every_call_is_made_below_the_base_directory() {
    // A walk through directories, links and "..", with made-up replies
    let replies = vec![
        Reply::Fd(10),
        Reply::Fd(11),
        Reply::Errno(ELOOP),
        Reply::Target(b"../x/y".to_vec()),
        Reply::Fd(12),
        Reply::Errno(ENOTDIR),
        Reply::Target(b"/z".to_vec()),
        Reply::Fd(13),
        Reply::Fd(14),
    ];
    let (mut walk, mut step) = begin(&bsd(), b"a/b/l/c", ALLOW_PARENT | IN_ROOT, O_RDONLY);
    let mut given: Vec<i32> = vec![];
    let mut names: Vec<Vec<u8>> = vec![];
    let mut replies = replies.into_iter();
    let result = loop {
        given.retain(|fd| !step.close.contains(fd));
        match &step.request {
            Request::Openat { dirfd, name, flags, .. } => {
                assert!(*dirfd == BASE || given.contains(dirfd));
                assert_eq!(flags & (O_NOFOLLOW | O_CLOEXEC), O_NOFOLLOW | O_CLOEXEC);
                names.push(name.clone());
            }
            Request::Readlinkat { dirfd, name } => {
                assert!(*dirfd == BASE || given.contains(dirfd));
                names.push(name.clone());
            }
            Request::Return(result) => break *result,
            _ => unreachable!(),
        }
        let reply = replies.next().unwrap();
        if let Reply::Fd(fd) = &reply {
            given.push(*fd);
        }
        let (w, s) = walk.step(reply);
        walk = w;
        step = s;
    };
    // The first open is made on the base directory itself, and every name is one plain name
    assert_eq!(result, Ok(14));
    assert_eq!(given, vec![14]);
    let expected: Vec<&[u8]> = vec![b"a", b"b", b"l", b"l", b"x", b"y", b"y", b"z", b"c"];
    assert_eq!(names, expected);
    assert!(names.iter().all(|n| !n.is_empty() && !n.contains(&b'/') && n != b"." && n != b".."));
}

#[test]
fn opens_are_bounded_by_components_and_links() {
    // Three components, two links of at most two components each, no kernel asked
    let replies = vec![
        Reply::Fd(10),
        Reply::Errno(ELOOP),
        Reply::Target(b"p/q".to_vec()),
        Reply::Fd(11),
        Reply::Errno(ELOOP),
        Reply::Target(b"r".to_vec()),
        Reply::Fd(12),
        Reply::Fd(13),
    ];
    let (mut walk, mut step) = begin(&bsd(), b"a/l/c", 0, O_RDONLY);
    let mut opens = 0;
    for reply in replies {
        if let Request::Openat { .. } = step.request {
            opens += 1;
        }
        let (w, s) = walk.step(reply);
        walk = w;
        step = s;
    }
    assert_eq!(step.request, Request::Return(Ok(13)));
    assert_eq!(opens, 6);
    assert!(opens <= 3 + 2 * 2 + 1);
}
