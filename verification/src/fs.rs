//! Directories and files as a client of the guest interface sees them: a
//! descriptor number of the guest, held by one owner.
use vstd::prelude::*;
use crate::ctx::WasiCtx;
use crate::error::Error;
use crate::fs_helpers::path_open;
use crate::fs_helpers::spec_path_open;
use crate::fs_helpers::PathOpen;
use crate::fs_helpers::__WASI_LOOKUP_SYMLINK_FOLLOW;
use crate::host;

verus! {

/// What closing the descriptor `fd` asks of the caller: the host handle to
/// close, if the descriptor is in the table and owns one. A failure of the
/// close is not reported.
pub open spec fn spec_close(ctx: &WasiCtx, fd: u32) -> Option<i32> {
    match ctx.spec_fd_close(fd) {
        Ok(handle) => handle,
        Err(_) => None,
    }
}

fn close(ctx: &mut WasiCtx, fd: u32) -> (handle: Option<i32>)
    ensures
        handle == spec_close(old(ctx), fd),
        final(ctx)@.fds == old(ctx)@.fds.remove(fd),
        final(ctx)@.args == old(ctx)@.args,
        final(ctx)@.env == old(ctx)@.env,
        spec_close(final(ctx), fd) is None,
{
    match ctx.fd_close(fd) {
        Ok(handle) => handle,
        Err(_) => None,
    }
}

/// A reference to an open directory on the filesystem.
pub struct Dir {
    fd: u32,
}

impl Dir {
    /// The descriptor number of the guest that this directory stands for.
    pub closed spec fn fd(&self) -> u32 {
        self.fd
    }

    /// Constructs a new instance of `Self` from the given raw WASI file
    /// descriptor.
    pub fn from_raw_wasi_fd(fd: u32) -> (dir: Self)
        ensures
            dir.fd() == fd,
    {
        Self { fd }
    }

    /// What is to be asked of the host to open a file below this directory
    /// in read-only mode, if the directory may be asked for it.
    pub fn open_file(&self, ctx: &WasiCtx) -> (r: Result<PathOpen, Error>)
        ensures
            r == spec_path_open(ctx, self.fd(), __WASI_LOOKUP_SYMLINK_FOLLOW, 0, !0u64, !0u64, 0),
    {
        path_open(ctx, self.fd, __WASI_LOOKUP_SYMLINK_FOLLOW, 0, !0u64, !0u64, 0)
    }

    /// What is to be asked of the host to open a directory below this
    /// directory, if the directory may be asked for it.
    pub fn open_dir(&self, ctx: &WasiCtx) -> (r: Result<PathOpen, Error>)
        ensures
            r == spec_path_open(
                ctx,
                self.fd(),
                __WASI_LOOKUP_SYMLINK_FOLLOW,
                host::__WASI_O_DIRECTORY,
                !0u64,
                !0u64,
                0,
            ),
    {
        path_open(
            ctx,
            self.fd,
            __WASI_LOOKUP_SYMLINK_FOLLOW,
            host::__WASI_O_DIRECTORY,
            !0u64,
            !0u64,
            0,
        )
    }

    /// Gives the directory up: its descriptor leaves the table, and the host
    /// handle that the caller now has to close comes back, if there is one.
    /// The caller closes it once and ignores what the close reports.
    pub fn close(self, ctx: &mut WasiCtx) -> (handle: Option<i32>)
        ensures
            handle == spec_close(old(ctx), self.fd()),
            final(ctx)@.fds == old(ctx)@.fds.remove(self.fd()),
            final(ctx)@.args == old(ctx)@.args,
            final(ctx)@.env == old(ctx)@.env,
            spec_close(final(ctx), self.fd()) is None,
    {
        close(ctx, self.fd)
    }
}

/// A reference to an open file on the filesystem.
pub struct File {
    fd: u32,
}

impl File {
    /// The descriptor number of the guest that this file stands for.
    pub closed spec fn fd(&self) -> u32 {
        self.fd
    }

    /// Constructs a new instance of `Self` from the given raw WASI file
    /// descriptor.
    pub fn from_raw_wasi_fd(fd: u32) -> (file: Self)
        ensures
            file.fd() == fd,
    {
        Self { fd }
    }

    pub fn as_raw_wasi_fd(&self) -> (fd: u32)
        ensures
            fd == self.fd(),
    {
        self.fd
    }

    /// Gives the file up: its descriptor leaves the table, and the host
    /// handle that the caller now has to close comes back, if there is one.
    /// The caller closes it once and ignores what the close reports.
    pub fn close(self, ctx: &mut WasiCtx) -> (handle: Option<i32>)
        ensures
            handle == spec_close(old(ctx), self.fd()),
            final(ctx)@.fds == old(ctx)@.fds.remove(self.fd()),
            final(ctx)@.args == old(ctx)@.args,
            final(ctx)@.env == old(ctx)@.env,
            spec_close(final(ctx), self.fd()) is None,
    {
        close(ctx, self.fd)
    }
}

/// The entries of a directory, one after the other.
pub struct ReadDir {
    fd: u32,
}

impl ReadDir {
    /// The descriptor number of the guest that is read from.
    pub closed spec fn fd(&self) -> u32 {
        self.fd
    }

    /// Constructs a new instance of `Self` from the given raw WASI file
    /// descriptor.
    pub fn from_raw_wasi_fd(fd: u32) -> (dir: Self)
        ensures
            dir.fd() == fd,
    {
        Self { fd }
    }

    pub fn as_raw_wasi_fd(&self) -> (fd: u32)
        ensures
            fd == self.fd(),
    {
        self.fd
    }
}

} // verus!
