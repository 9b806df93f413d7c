use openat_secure::error::Error;
use openat_secure::flags::LookupFlags;
use openat_secure::host::{Errnos, Host, OpenFlags};
use openat_secure::inner::{prepare_inner_operation, Inner};

const ENOENT: i32 = 2;
const EXDEV: i32 = 18;

fn host() -> Host {
    Host {
        errno: Errnos {
            e2big: 7,
            eagain: 11,
            ebusy: 16,
            eexist: 17,
            einval: 22,
            eisdir: 21,
            eloop: 40,
            enoent: ENOENT,
            enosys: 38,
            enotdir: 20,
            enotempty: 39,
            enotsup: 95,
            exdev: EXDEV,
        },
        open: OpenFlags {
            o_rdonly: 0,
            o_wronly: 1,
            o_rdwr: 2,
            o_creat: 0o100,
            o_excl: 0o200,
            o_trunc: 0o1000,
            o_append: 0o2000,
            o_directory: 0o200000,
            o_nofollow: 0o400000,
            o_cloexec: 0o2000000,
        },
        linux: None,
        nofollow_errno: None,
    }
}

fn split(path: &[u8], bits: u64) -> Result<Inner, Error> {
    prepare_inner_operation(&host(), path, LookupFlags::from_bits(bits).unwrap())
}

fn in_base(name: &[u8]) -> Result<Inner, Error> {
    Ok(Inner::InBase { name: name.to_vec() })
}

fn in_parent(parent: &[u8], name: &[u8]) -> Result<Inner, Error> {
    Ok(Inner::InParent { parent: parent.to_vec(), name: name.to_vec() })
}

fn whole(path: &[u8]) -> Result<Inner, Error> {
    Ok(Inner::Whole { path: path.to_vec() })
}

const IN_ROOT: u64 = LookupFlags::IN_ROOT;

#[test]
fn empty_path_is_no_entry() {
    for bits in [0, IN_ROOT, LookupFlags::ALL] {
        assert_eq!(split(b"", bits), Err(Error::Os(ENOENT)));
    }
}

#[test]
fn absolute_path_needs_in_root() {
    for path in [&b"/"[..], b"/a", b"//a/b", b"/.."] {
        assert_eq!(split(path, 0), Err(Error::Os(EXDEV)));
        assert_eq!(split(path, LookupFlags::ALLOW_PARENT_COMPONENTS), Err(Error::Os(EXDEV)));
    }
    assert_eq!(split(b"/", IN_ROOT), Ok(Inner::Base));
    assert_eq!(split(b"///", IN_ROOT), Ok(Inner::Base));
    assert_eq!(split(b"/a", IN_ROOT), in_base(b"a"));
    assert_eq!(split(b"//a/", IN_ROOT), in_base(b"a/"));
    assert_eq!(split(b"/a/b", IN_ROOT), in_parent(b"a/", b"b"));
    assert_eq!(split(b"/..", IN_ROOT), whole(b".."));
    assert_eq!(split(b"/../a", IN_ROOT), in_parent(b"../", b"a"));
}

#[test]
fn name_in_the_base_directory() {
    assert_eq!(split(b"a", 0), in_base(b"a"));
    assert_eq!(split(b"a/", 0), in_base(b"a/"));
    assert_eq!(split(b"a///", 0), in_base(b"a/"));
    assert_eq!(split(b".", 0), in_base(b"."));
}

#[test]
fn name_in_a_directory_below() {
    assert_eq!(split(b"a/b", 0), in_parent(b"a/", b"b"));
    assert_eq!(split(b"a//b/", 0), in_parent(b"a//", b"b/"));
    assert_eq!(split(b"a/b/c", 0), in_parent(b"a/b/", b"c"));
    assert_eq!(split(b"../a", 0), in_parent(b"../", b"a"));
    assert_eq!(split(b"a/../a", 0), in_parent(b"a/../", b"a"));
    assert_eq!(split(b"./b", 0), in_parent(b"./", b"b"));
    assert_eq!(split(b"a/.", 0), in_parent(b"a/", b"."));
}

#[test]
fn path_that_ends_in_parent_has_no_name() {
    assert_eq!(split(b"..", 0), whole(b".."));
    assert_eq!(split(b"a/..", 0), whole(b"a/.."));
    assert_eq!(split(b"a/b/../", 0), whole(b"a/b/../"));
    assert_eq!(split(b"a/../.", 0), whole(b"a/../."));
}

#[test]
fn nul_byte_is_refused() {
    assert_eq!(split(b"a/b\0", 0), Err(Error::InvalidInput));
    assert_eq!(split(b"\0/b", 0), Err(Error::InvalidInput));
    assert_eq!(split(b"/a\0", IN_ROOT), Err(Error::InvalidInput));
    // The policy comes first
    assert_eq!(split(b"/a\0", 0), Err(Error::Os(EXDEV)));
}
