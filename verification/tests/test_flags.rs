use openat_secure::flags::{LookupFlags, Policy};
use openat_secure::host::{Errnos, Host, Linux, OpenFlags};

fn host(linux: bool) -> Host {
    Host {
        errno: Errnos {
            e2big: 7,
            eagain: 11,
            ebusy: 16,
            eexist: 17,
            einval: 22,
            eisdir: 21,
            eloop: 40,
            enoent: 2,
            enosys: 38,
            enotdir: 20,
            enotempty: 39,
            enotsup: 95,
            exdev: 18,
        },
        open: OpenFlags {
            o_rdonly: 0,
            o_wronly: 1,
            o_rdwr: 2,
            o_creat: 0o100,
            o_excl: 0o200,
            o_trunc: 0o1000,
            o_append: 0o2000,
            o_directory: 0o200000,
            o_nofollow: 0o400000,
            o_cloexec: 0o2000000,
        },
        linux: if linux { Some(Linux { o_path: 0o10000000, o_tmpfile: 0o20200000, at_fdcwd: -100 }) } else { None },
        nofollow_errno: None,
    }
}

#[test]
fn bits_are_fixed() {
    assert_eq!(LookupFlags::NO_SYMLINKS, 1);
    assert_eq!(LookupFlags::IN_ROOT, 2);
    assert_eq!(LookupFlags::ALLOW_PARENT_COMPONENTS, 4);
    assert_eq!(LookupFlags::NO_XDEV, 8);
    assert_eq!(LookupFlags::XDEV_BIND_OK, 16);
    assert_eq!(LookupFlags::ALL, 31);
    assert_eq!(LookupFlags::all().bits(), 31);
    assert_eq!(LookupFlags::empty().bits(), 0);
}

#[test]
fn from_bits_refuses_unknown_bits() {
    assert_eq!(LookupFlags::from_bits(32), None);
    assert_eq!(LookupFlags::from_bits(1 | 64), None);
    assert_eq!(LookupFlags::from_bits(5).map(|f| f.bits()), Some(5));
    assert_eq!(LookupFlags::from_bits(0), Some(LookupFlags::empty()));
    assert_eq!(LookupFlags::from_bits_truncate(1 | 64).bits(), 1);
    assert_eq!(LookupFlags::from_bits_truncate(u64::MAX), LookupFlags::all());
}

#[test]
fn sets_combine() {
    let a = LookupFlags::from_bits(LookupFlags::NO_XDEV).unwrap();
    let b = LookupFlags::from_bits(LookupFlags::XDEV_BIND_OK).unwrap();
    assert_eq!((a | b).bits(), 24);
    assert_eq!(a.union(b), a | b);
    assert!((a | b).contains(a));
    assert!(!a.contains(a | b));
    assert!(a.contains(LookupFlags::empty()));
    assert!(LookupFlags::empty().is_empty());
    assert!(!a.is_empty());

    let mut c = a;
    c.insert(b);
    assert_eq!(c, a | b);
    c.remove(a);
    assert_eq!(c, b);
    c.remove(a);
    assert_eq!(c, b);

    assert!(a.no_xdev() && !a.xdev_bind_ok() && !a.no_symlinks() && !a.in_root());
    assert!(!a.allow_parent_components());
    assert!(LookupFlags::all().allow_parent_components() && LookupFlags::all().in_root());
    assert!(LookupFlags::all().no_symlinks());
}

#[test]
fn policy_follows_the_flags() {
    let none = LookupFlags::empty();
    assert_eq!(
        none.policy(&host(true)),
        Policy {
            allow_absolute: false,
            allow_parent: false,
            resolve_symlinks: true,
            check_dev: false,
            use_kernel_fastpath: true,
        }
    );
    assert_eq!(
        LookupFlags::all().policy(&host(true)),
        Policy {
            allow_absolute: true,
            allow_parent: true,
            resolve_symlinks: false,
            check_dev: true,
            use_kernel_fastpath: false,
        }
    );
    // The kernel is asked on Linux only, and not with both NO_XDEV and XDEV_BIND_OK
    let xdev = LookupFlags::from_bits(LookupFlags::NO_XDEV).unwrap();
    let bind = LookupFlags::from_bits(LookupFlags::XDEV_BIND_OK).unwrap();
    assert!(xdev.policy(&host(true)).use_kernel_fastpath);
    assert!(bind.policy(&host(true)).use_kernel_fastpath);
    assert!(!(xdev | bind).policy(&host(true)).use_kernel_fastpath);
    assert!(!none.policy(&host(false)).use_kernel_fastpath);
    assert!(xdev.policy(&host(false)).check_dev);
}

#[test]
fn host_flags_for_directories_on_the_way() {
    assert_eq!(host(true).base_dir_flags(), 0o10000000 | 0o200000);
    assert_eq!(host(false).base_dir_flags(), 0o200000);
}

#[test]
fn host_normalizes_its_alias_of_eloop() {
    let mut h = host(false);
    assert_eq!(h.normalize(31), 31);
    h.nofollow_errno = Some(31);
    assert_eq!(h.normalize(31), 40);
    assert_eq!(h.normalize(20), 20);
    assert_eq!(h.normalize(40), 40);
}
