//! What a path has to be allowed before it is opened.
use vstd::prelude::*;
use crate::ctx::WasiCtx;
use crate::error::Error;
use crate::fdentry::Descriptor;
use crate::host;

verus! {

/// The rights that a directory descriptor must hold so that a path below it
/// may be opened with `oflags` and `fs_flags`, yielding a descriptor with
/// `rights_base` and `rights_inheriting`.
pub open spec fn spec_path_open_rights(
    rights_base: u64,
    rights_inheriting: u64,
    oflags: u16,
    fs_flags: u16,
) -> (u64, u64) {
    let create = if oflags & host::__WASI_O_CREAT != 0 {
        host::__WASI_RIGHT_PATH_CREATE_FILE
    } else {
        0
    };
    let truncate = if oflags & host::__WASI_O_TRUNC != 0 {
        host::__WASI_RIGHT_PATH_FILESTAT_SET_SIZE
    } else {
        0
    };
    let datasync = if fs_flags & host::__WASI_FDFLAG_DSYNC != 0 {
        host::__WASI_RIGHT_FD_DATASYNC
    } else {
        0
    };
    let sync = if fs_flags & (host::__WASI_FDFLAG_RSYNC | host::__WASI_FDFLAG_SYNC) != 0 {
        host::__WASI_RIGHT_FD_SYNC
    } else {
        0
    };
    (
        host::__WASI_RIGHT_PATH_OPEN | create | truncate,
        rights_base | rights_inheriting | datasync | sync,
    )
}

pub fn path_open_rights(
    rights_base: u64,
    rights_inheriting: u64,
    oflags: u16,
    fs_flags: u16,
) -> (needed: (u64, u64))
    ensures
        needed == spec_path_open_rights(rights_base, rights_inheriting, oflags, fs_flags),
        host::has_rights(needed.0, host::__WASI_RIGHT_PATH_OPEN),
        host::has_rights(needed.0, host::__WASI_RIGHT_PATH_CREATE_FILE) <==> oflags
            & host::__WASI_O_CREAT != 0,
        host::has_rights(needed.0, host::__WASI_RIGHT_PATH_FILESTAT_SET_SIZE) <==> oflags
            & host::__WASI_O_TRUNC != 0,
        host::has_rights(needed.1, rights_base),
        host::has_rights(needed.1, rights_inheriting),
        host::has_rights(needed.1, host::__WASI_RIGHT_FD_DATASYNC) <== fs_flags
            & host::__WASI_FDFLAG_DSYNC != 0,
        host::has_rights(needed.1, host::__WASI_RIGHT_FD_SYNC) <== fs_flags & (
        host::__WASI_FDFLAG_RSYNC | host::__WASI_FDFLAG_SYNC) != 0,
{
    let create: u64 = if oflags & host::__WASI_O_CREAT != 0 {
        host::__WASI_RIGHT_PATH_CREATE_FILE
    } else {
        0
    };
    let truncate: u64 = if oflags & host::__WASI_O_TRUNC != 0 {
        host::__WASI_RIGHT_PATH_FILESTAT_SET_SIZE
    } else {
        0
    };
    let datasync: u64 = if fs_flags & host::__WASI_FDFLAG_DSYNC != 0 {
        host::__WASI_RIGHT_FD_DATASYNC
    } else {
        0
    };
    let sync: u64 = if fs_flags & (host::__WASI_FDFLAG_RSYNC | host::__WASI_FDFLAG_SYNC) != 0 {
        host::__WASI_RIGHT_FD_SYNC
    } else {
        0
    };
    let needed_base: u64 = host::__WASI_RIGHT_PATH_OPEN | create | truncate;
    let needed_inheriting: u64 = rights_base | rights_inheriting | datasync | sync;
    proof {
        assert((create == 0 || create == 0x400) && (truncate == 0 || truncate == 0x8_0000) ==> {
            &&& (0x2000u64 | create | truncate) & 0x2000 == 0x2000
            &&& ((0x2000u64 | create | truncate) & 0x400 == 0x400 <==> create == 0x400)
            &&& ((0x2000u64 | create | truncate) & 0x8_0000 == 0x8_0000 <==> truncate == 0x8_0000)
        }) by (bit_vector);
        assert({
            let all = rights_base | rights_inheriting | datasync | sync;
            &&& all & rights_base == rights_base
            &&& all & rights_inheriting == rights_inheriting
            &&& all & datasync == datasync
            &&& all & sync == sync
        }) by (bit_vector);
    }
    (needed_base, needed_inheriting)
}

/// What is asked when a path is opened below a directory.
#[derive(Clone, Copy, Debug, PartialEq, Eq, Structural)]
pub struct PathOpen {
    /// The host handle of the directory.
    pub dirfd: i32,
    pub dirflags: u32,
    pub oflags: u16,
    /// The rights that the new descriptor is to hold.
    pub fs_rights_base: u64,
    /// The rights that the new descriptor is to hand on.
    pub fs_rights_inheriting: u64,
    pub fs_flags: u16,
}

/// Set where the last part of a path is followed if it is a symbolic link.
pub const __WASI_LOOKUP_SYMLINK_FOLLOW: u32 = 0x0000_0001;

/// Whether a path may be opened below the descriptor `dirfd`, and on which
/// host handle: the descriptor must be in the table, hold every right that
/// the open needs, and be a file of the host, not a standard stream.
pub open spec fn spec_path_open(
    ctx: &WasiCtx,
    dirfd: u32,
    dirflags: u32,
    oflags: u16,
    fs_rights_base: u64,
    fs_rights_inheriting: u64,
    fs_flags: u16,
) -> Result<PathOpen, Error> {
    let needed = spec_path_open_rights(fs_rights_base, fs_rights_inheriting, oflags, fs_flags);
    match ctx.spec_resolve(dirfd, needed.0, needed.1) {
        Ok(Descriptor::OsFile(handle)) => Ok(
            PathOpen {
                dirfd: handle,
                dirflags,
                oflags,
                fs_rights_base,
                fs_rights_inheriting,
                fs_flags,
            },
        ),
        Ok(_) => Err(Error::EBADF),
        Err(e) => Err(e),
    }
}

/// Decides whether a path may be opened below the descriptor `dirfd`.
/// Nothing is to be asked of the host unless the directory holds the rights
/// that the open needs.
pub fn path_open(
    ctx: &WasiCtx,
    dirfd: u32,
    dirflags: u32,
    oflags: u16,
    fs_rights_base: u64,
    fs_rights_inheriting: u64,
    fs_flags: u16,
) -> (r: Result<PathOpen, Error>)
    ensures
        r == spec_path_open(
            ctx,
            dirfd,
            dirflags,
            oflags,
            fs_rights_base,
            fs_rights_inheriting,
            fs_flags,
        ),
{
    let (needed_base, needed_inheriting) = path_open_rights(
        fs_rights_base,
        fs_rights_inheriting,
        oflags,
        fs_flags,
    );
    match ctx.resolve(dirfd, needed_base, needed_inheriting) {
        Ok(descriptor) => match descriptor {
            Descriptor::OsFile(handle) => Ok(
                PathOpen {
                    dirfd: *handle,
                    dirflags,
                    oflags,
                    fs_rights_base,
                    fs_rights_inheriting,
                    fs_flags,
                },
            ),
            _ => Err(Error::EBADF),
        },
        Err(e) => Err(e),
    }
}

} // verus!
