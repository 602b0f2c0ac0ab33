//! Numbers of the guest ABI: rights, flags, clock identifiers and tags.
use vstd::prelude::*;

verus! {

pub const __WASI_RIGHT_FD_DATASYNC: u64 = 0x0000_0001;
pub const __WASI_RIGHT_FD_READ: u64 = 0x0000_0002;
pub const __WASI_RIGHT_FD_SEEK: u64 = 0x0000_0004;
pub const __WASI_RIGHT_FD_FDSTAT_SET_FLAGS: u64 = 0x0000_0008;
pub const __WASI_RIGHT_FD_SYNC: u64 = 0x0000_0010;
pub const __WASI_RIGHT_FD_TELL: u64 = 0x0000_0020;
pub const __WASI_RIGHT_FD_WRITE: u64 = 0x0000_0040;
pub const __WASI_RIGHT_FD_ADVISE: u64 = 0x0000_0080;
pub const __WASI_RIGHT_FD_ALLOCATE: u64 = 0x0000_0100;
pub const __WASI_RIGHT_PATH_CREATE_DIRECTORY: u64 = 0x0000_0200;
pub const __WASI_RIGHT_PATH_CREATE_FILE: u64 = 0x0000_0400;
pub const __WASI_RIGHT_PATH_LINK_SOURCE: u64 = 0x0000_0800;
pub const __WASI_RIGHT_PATH_LINK_TARGET: u64 = 0x0000_1000;
pub const __WASI_RIGHT_PATH_OPEN: u64 = 0x0000_2000;
pub const __WASI_RIGHT_FD_READDIR: u64 = 0x0000_4000;
pub const __WASI_RIGHT_PATH_READLINK: u64 = 0x0000_8000;
pub const __WASI_RIGHT_PATH_RENAME_SOURCE: u64 = 0x0001_0000;
pub const __WASI_RIGHT_PATH_RENAME_TARGET: u64 = 0x0002_0000;
pub const __WASI_RIGHT_PATH_FILESTAT_GET: u64 = 0x0004_0000;
pub const __WASI_RIGHT_PATH_FILESTAT_SET_SIZE: u64 = 0x0008_0000;
pub const __WASI_RIGHT_PATH_FILESTAT_SET_TIMES: u64 = 0x0010_0000;
pub const __WASI_RIGHT_FD_FILESTAT_GET: u64 = 0x0020_0000;
pub const __WASI_RIGHT_FD_FILESTAT_SET_SIZE: u64 = 0x0040_0000;
pub const __WASI_RIGHT_FD_FILESTAT_SET_TIMES: u64 = 0x0080_0000;
pub const __WASI_RIGHT_PATH_SYMLINK: u64 = 0x0100_0000;
pub const __WASI_RIGHT_PATH_REMOVE_DIRECTORY: u64 = 0x0200_0000;
pub const __WASI_RIGHT_PATH_UNLINK_FILE: u64 = 0x0400_0000;
pub const __WASI_RIGHT_POLL_FD_READWRITE: u64 = 0x0800_0000;
pub const __WASI_RIGHT_SOCK_SHUTDOWN: u64 = 0x1000_0000;

/// Every right that the ABI defines.
pub const RIGHTS_ALL: u64 = 0x1fff_ffff;

/// What a block device may be asked for, and what it hands on.
pub const RIGHTS_BLOCK_DEVICE_BASE: u64 = RIGHTS_ALL;
pub const RIGHTS_BLOCK_DEVICE_INHERITING: u64 = RIGHTS_ALL;

/// What a character device that is no terminal may be asked for, and what
/// it hands on.
pub const RIGHTS_CHARACTER_DEVICE_BASE: u64 = RIGHTS_ALL;
pub const RIGHTS_CHARACTER_DEVICE_INHERITING: u64 = RIGHTS_ALL;

/// What a regular file may be asked for. It hands on nothing.
pub const RIGHTS_REGULAR_FILE_BASE: u64 = __WASI_RIGHT_FD_DATASYNC | __WASI_RIGHT_FD_READ
    | __WASI_RIGHT_FD_SEEK | __WASI_RIGHT_FD_FDSTAT_SET_FLAGS | __WASI_RIGHT_FD_SYNC
    | __WASI_RIGHT_FD_TELL | __WASI_RIGHT_FD_WRITE | __WASI_RIGHT_FD_ADVISE
    | __WASI_RIGHT_FD_ALLOCATE | __WASI_RIGHT_FD_FILESTAT_GET
    | __WASI_RIGHT_FD_FILESTAT_SET_SIZE | __WASI_RIGHT_FD_FILESTAT_SET_TIMES
    | __WASI_RIGHT_POLL_FD_READWRITE;
pub const RIGHTS_REGULAR_FILE_INHERITING: u64 = 0;

/// What a directory may be asked for.
pub const RIGHTS_DIRECTORY_BASE: u64 = __WASI_RIGHT_FD_FDSTAT_SET_FLAGS | __WASI_RIGHT_FD_SYNC
    | __WASI_RIGHT_FD_ADVISE | __WASI_RIGHT_PATH_CREATE_DIRECTORY
    | __WASI_RIGHT_PATH_CREATE_FILE | __WASI_RIGHT_PATH_LINK_SOURCE
    | __WASI_RIGHT_PATH_LINK_TARGET | __WASI_RIGHT_PATH_OPEN | __WASI_RIGHT_FD_READDIR
    | __WASI_RIGHT_PATH_READLINK | __WASI_RIGHT_PATH_RENAME_SOURCE
    | __WASI_RIGHT_PATH_RENAME_TARGET | __WASI_RIGHT_PATH_FILESTAT_GET
    | __WASI_RIGHT_PATH_FILESTAT_SET_SIZE | __WASI_RIGHT_PATH_FILESTAT_SET_TIMES
    | __WASI_RIGHT_FD_FILESTAT_GET | __WASI_RIGHT_FD_FILESTAT_SET_TIMES
    | __WASI_RIGHT_PATH_SYMLINK | __WASI_RIGHT_PATH_UNLINK_FILE
    | __WASI_RIGHT_PATH_REMOVE_DIRECTORY | __WASI_RIGHT_POLL_FD_READWRITE;

/// What a directory hands on to what is opened below it: a directory's own
/// rights and those of a regular file.
pub const RIGHTS_DIRECTORY_INHERITING: u64 = RIGHTS_DIRECTORY_BASE | RIGHTS_REGULAR_FILE_BASE;

/// What a socket may be asked for. It hands on what it holds itself.
pub const RIGHTS_SOCKET_BASE: u64 = __WASI_RIGHT_FD_READ | __WASI_RIGHT_FD_FDSTAT_SET_FLAGS
    | __WASI_RIGHT_FD_WRITE | __WASI_RIGHT_FD_FILESTAT_GET | __WASI_RIGHT_POLL_FD_READWRITE
    | __WASI_RIGHT_SOCK_SHUTDOWN;
pub const RIGHTS_SOCKET_INHERITING: u64 = RIGHTS_SOCKET_BASE;

/// What a terminal may be asked for. It hands on nothing.
pub const RIGHTS_TTY_BASE: u64 = __WASI_RIGHT_FD_READ | __WASI_RIGHT_FD_FDSTAT_SET_FLAGS
    | __WASI_RIGHT_FD_WRITE | __WASI_RIGHT_FD_FILESTAT_GET | __WASI_RIGHT_POLL_FD_READWRITE;
pub const RIGHTS_TTY_INHERITING: u64 = 0;

pub const __WASI_FILETYPE_UNKNOWN: u8 = 0;
pub const __WASI_FILETYPE_BLOCK_DEVICE: u8 = 1;
pub const __WASI_FILETYPE_CHARACTER_DEVICE: u8 = 2;
pub const __WASI_FILETYPE_DIRECTORY: u8 = 3;
pub const __WASI_FILETYPE_REGULAR_FILE: u8 = 4;
pub const __WASI_FILETYPE_SOCKET_DGRAM: u8 = 5;
pub const __WASI_FILETYPE_SOCKET_STREAM: u8 = 6;
pub const __WASI_FILETYPE_SYMBOLIC_LINK: u8 = 7;

pub const __WASI_CLOCK_REALTIME: u32 = 0;
pub const __WASI_CLOCK_MONOTONIC: u32 = 1;
pub const __WASI_CLOCK_PROCESS_CPUTIME_ID: u32 = 2;
pub const __WASI_CLOCK_THREAD_CPUTIME_ID: u32 = 3;

pub const __WASI_EVENTTYPE_CLOCK: u8 = 0;
pub const __WASI_EVENTTYPE_FD_READ: u8 = 1;
pub const __WASI_EVENTTYPE_FD_WRITE: u8 = 2;

/// Set in an event when the peer of a descriptor has gone.
pub const __WASI_EVENT_FD_READWRITE_HANGUP: u16 = 0x0001;

/// Set in a clock subscription whose timeout is a point in time.
pub const __WASI_SUBSCRIPTION_CLOCK_ABSTIME: u16 = 0x0001;

pub const __WASI_O_CREAT: u16 = 0x0001;
pub const __WASI_O_DIRECTORY: u16 = 0x0002;
pub const __WASI_O_EXCL: u16 = 0x0004;
pub const __WASI_O_TRUNC: u16 = 0x0008;

pub const __WASI_FDFLAG_APPEND: u16 = 0x0001;
pub const __WASI_FDFLAG_DSYNC: u16 = 0x0002;
pub const __WASI_FDFLAG_NONBLOCK: u16 = 0x0004;
pub const __WASI_FDFLAG_RSYNC: u16 = 0x0008;
pub const __WASI_FDFLAG_SYNC: u16 = 0x0010;

/// Whether the rights mask `rights` holds every right of `wanted`.
pub open spec fn has_rights(rights: u64, wanted: u64) -> bool {
    rights & wanted == wanted
}

} // verus!
