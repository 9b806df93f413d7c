//! The base directory of a sandbox, and the resolutions that begin at it.

use vstd::prelude::*;
use crate::flags::LookupFlags;
use crate::host::Host;
use crate::open::{follows, initial, open_file_secure, start, Outcome, Step, Walk};

verus! {

/// A base directory: the directory that no resolution may leave.
#[derive(Clone, Copy, Debug)]
pub struct BaseDir {
    /// The host system.
    pub host: Host,
    /// The descriptor of the directory. The caller owns it.
    pub fd: i32,
    /// What `sysconf(_SC_SYMLOOP_MAX)` returned on the host.
    pub symloop_max: i64,
}

impl BaseDir {
    /// The first step of the walk of `path` below this directory.
    pub open spec fn walk(
        self,
        path: Seq<u8>,
        lookup_flags: LookupFlags,
        final_flags: i32,
        mode: u32,
    ) -> Outcome {
        start(
            initial(self.host, self.fd, path, lookup_flags, final_flags, mode, self.symloop_max),
            path,
        )
    }

    /// The flags that create a file and fail where it exists, for writing.
    pub open spec fn new_file_flags(self) -> i32 {
        self.host.open.o_creat | self.host.open.o_excl | self.host.open.o_wronly
    }

    /// The flags that open a file for reading and writing, and create it where
    /// it does not exist.
    pub open spec fn update_file_flags(self) -> i32 {
        self.host.open.o_creat | self.host.open.o_rdwr
    }

    /// The flags that open a file for writing, create it where it does not
    /// exist, and truncate it where it does.
    pub open spec fn write_file_flags(self) -> i32 {
        self.host.open.o_creat | self.host.open.o_wronly | self.host.open.o_trunc
    }

    /// The flags that open a file for appending, and create it where it does
    /// not exist.
    pub open spec fn append_file_flags(self) -> i32 {
        self.host.open.o_creat | self.host.open.o_wronly | self.host.open.o_append
    }

    /// Begins to open the directory at `p`.
    pub fn sub_dir_secure(&self, p: &[u8], lookup_flags: LookupFlags) -> (r: (Walk, Step))
        ensures
            follows(r, self.walk(p@, lookup_flags, self.host.base_dir_flags(), 0)),
    {
        let flags = self.host.base_dir_flags();
        open_file_secure(&self.host, self.fd, p, lookup_flags, flags, 0, self.symloop_max)
    }

    /// Begins to create the file at `p` and open it for writing. The open fails
    /// where the file exists.
    pub fn new_file_secure(&self, p: &[u8], mode: u32, lookup_flags: LookupFlags) -> (r: (
        Walk,
        Step,
    ))
        ensures
            follows(r, self.walk(p@, lookup_flags, self.new_file_flags(), mode)),
    {
        let flags = self.host.open.o_creat | self.host.open.o_excl | self.host.open.o_wronly;
        open_file_secure(&self.host, self.fd, p, lookup_flags, flags, mode, self.symloop_max)
    }

    /// Begins to open the file at `p` for reading and writing, creating it
    /// where it does not exist.
    pub fn update_file_secure(&self, p: &[u8], mode: u32, lookup_flags: LookupFlags) -> (r: (
        Walk,
        Step,
    ))
        ensures
            follows(r, self.walk(p@, lookup_flags, self.update_file_flags(), mode)),
    {
        let flags = self.host.open.o_creat | self.host.open.o_rdwr;
        open_file_secure(&self.host, self.fd, p, lookup_flags, flags, mode, self.symloop_max)
    }

    /// Begins to open the file at `p` for reading.
    pub fn open_file_secure(&self, p: &[u8], lookup_flags: LookupFlags) -> (r: (Walk, Step))
        ensures
            follows(r, self.walk(p@, lookup_flags, self.host.open.o_rdonly, 0)),
    {
        let flags = self.host.open.o_rdonly;
        open_file_secure(&self.host, self.fd, p, lookup_flags, flags, 0, self.symloop_max)
    }

    /// Begins to open the file at `p` for writing, creating it where it does
    /// not exist and truncating it where it does.
    pub fn write_file_secure(&self, p: &[u8], mode: u32, lookup_flags: LookupFlags) -> (r: (
        Walk,
        Step,
    ))
        ensures
            follows(r, self.walk(p@, lookup_flags, self.write_file_flags(), mode)),
    {
        let flags = self.host.open.o_creat | self.host.open.o_wronly | self.host.open.o_trunc;
        open_file_secure(&self.host, self.fd, p, lookup_flags, flags, mode, self.symloop_max)
    }

    /// Begins to open the file at `p` for appending, creating it where it does
    /// not exist.
    pub fn append_file_secure(&self, p: &[u8], mode: u32, lookup_flags: LookupFlags) -> (r: (
        Walk,
        Step,
    ))
        ensures
            follows(r, self.walk(p@, lookup_flags, self.append_file_flags(), mode)),
    {
        let flags = self.host.open.o_creat | self.host.open.o_wronly | self.host.open.o_append;
        open_file_secure(&self.host, self.fd, p, lookup_flags, flags, mode, self.symloop_max)
    }
}

} // verus!
