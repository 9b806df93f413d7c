use openat_secure::constants::DEFAULT_SYMLOOP_MAX;
use openat_secure::error::Error;
use openat_secure::flags::LookupFlags;
use openat_secure::util::{
    basename_range, get_symloop_max, path_basename, same_dir, same_stat, symlink_limit, FileId,
};

#[test]
fn test_path_basename() {
    assert_eq!(path_basename(b"/a"), Some(&b"a"[..]));
    assert_eq!(path_basename(b"/a/"), Some(&b"a/"[..]));
    assert_eq!(path_basename(b"/a//"), Some(&b"a/"[..]));
    assert_eq!(path_basename(b"//a//"), Some(&b"a/"[..]));
    assert_eq!(path_basename(b"//a///"), Some(&b"a/"[..]));

    assert_eq!(path_basename(b"/a/b"), Some(&b"b"[..]));
    assert_eq!(path_basename(b"/a/b/"), Some(&b"b/"[..]));
    assert_eq!(path_basename(b"//a//b//"), Some(&b"b/"[..]));

    assert_eq!(path_basename(b"/"), None);
    assert_eq!(path_basename(b"//"), None);

    assert_eq!(path_basename(b".."), None);
    assert_eq!(path_basename(b"../"), None);
    assert_eq!(path_basename(b"..//"), None);

    assert_eq!(path_basename(b"a/.."), None);
    assert_eq!(path_basename(b"a//.."), None);
    assert_eq!(path_basename(b"a/../"), None);
    assert_eq!(path_basename(b"a//..//"), None);

    assert_eq!(path_basename(b"/.."), None);
    assert_eq!(path_basename(b"//.."), None);
    assert_eq!(path_basename(b"/../"), None);
    assert_eq!(path_basename(b"//../"), None);
}

#[test]
fn path_basename_of_short_paths() {
    assert_eq!(path_basename(b""), Some(&b""[..]));
    assert_eq!(path_basename(b"a"), Some(&b"a"[..]));
    assert_eq!(path_basename(b"."), Some(&b"."[..]));
    assert_eq!(path_basename(b"./"), Some(&b"./"[..]));
    assert_eq!(path_basename(b"a/."), Some(&b"."[..]));
    assert_eq!(path_basename(b"..."), Some(&b"..."[..]));
    assert_eq!(path_basename(b"a/..b"), Some(&b"..b"[..]));
    assert_eq!(path_basename(b"/./"), None);
    assert_eq!(path_basename(b"a/../."), None);
}

#[test]
fn basename_range_cuts_the_path() {
    assert_eq!(basename_range(b"ab/cd//"), Some((3, 6)));
    assert_eq!(basename_range(b"ab"), Some((0, 2)));
    assert_eq!(basename_range(b""), Some((0, 0)));
    assert_eq!(basename_range(b"a/.."), None);
}

#[test]
fn symloop_max_follows_sysconf() {
    assert_eq!(get_symloop_max(-1), None);
    assert_eq!(get_symloop_max(0), Some(0));
    assert_eq!(get_symloop_max(8), Some(8));
}

#[test]
fn symlink_limit_by_flags() {
    assert_eq!(DEFAULT_SYMLOOP_MAX, 40);
    let none = LookupFlags::empty();
    let no_symlinks = LookupFlags::from_bits(LookupFlags::NO_SYMLINKS).unwrap();
    assert_eq!(symlink_limit(none, -1), 40);
    assert_eq!(symlink_limit(none, 8), 8);
    assert_eq!(symlink_limit(no_symlinks, -1), 0);
    assert_eq!(symlink_limit(no_symlinks, 8), 0);
}

#[test]
fn same_stat_compares_device_and_number() {
    let a = FileId { dev: 1, ino: 7 };
    assert!(same_stat(&a, &FileId { dev: 1, ino: 7 }));
    assert!(!same_stat(&a, &FileId { dev: 2, ino: 7 }));
    assert!(!same_stat(&a, &FileId { dev: 1, ino: 8 }));
}

#[test]
fn same_dir_passes_the_first_error_on() {
    let a = FileId { dev: 1, ino: 7 };
    let b = FileId { dev: 1, ino: 8 };
    assert_eq!(same_dir(Ok(a), Ok(a)), Ok(true));
    assert_eq!(same_dir(Ok(a), Ok(b)), Ok(false));
    assert_eq!(same_dir(Err(Error::Os(5)), Ok(b)), Err(Error::Os(5)));
    assert_eq!(same_dir(Ok(a), Err(Error::Os(9))), Err(Error::Os(9)));
    assert_eq!(same_dir(Err(Error::Os(5)), Err(Error::Os(9))), Err(Error::Os(5)));
}
