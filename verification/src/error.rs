//! The failures of this library: the error codes of the guest ABI, and how
//! the error numbers of the host map onto them.
use vstd::prelude::*;

verus! {

/// The code that stands for success where the ABI carries an error number.
pub const __WASI_ESUCCESS: u16 = 0;

/// A failure, named as the guest ABI names it.
#[derive(Clone, Copy, Debug, PartialEq, Eq, Structural)]
pub enum Error {
    /// Argument list too long.
    E2BIG,
    /// Permission denied.
    EACCES,
    /// Address in use.
    EADDRINUSE,
    /// Address not available.
    EADDRNOTAVAIL,
    /// Address family not supported.
    EAFNOSUPPORT,
    /// Resource unavailable, or operation would block.
    EAGAIN,
    /// Connection already in progress.
    EALREADY,
    /// Bad file descriptor.
    EBADF,
    /// Bad message.
    EBADMSG,
    /// Device or resource busy.
    EBUSY,
    /// Operation canceled.
    ECANCELED,
    /// No child processes.
    ECHILD,
    /// Connection aborted.
    ECONNABORTED,
    /// Connection refused.
    ECONNREFUSED,
    /// Connection reset.
    ECONNRESET,
    /// Resource deadlock would occur.
    EDEADLK,
    /// Destination address required.
    EDESTADDRREQ,
    /// Mathematics argument out of domain of function.
    EDOM,
    /// Reserved.
    EDQUOT,
    /// File exists.
    EEXIST,
    /// Bad address.
    EFAULT,
    /// File too large.
    EFBIG,
    /// Host is unreachable.
    EHOSTUNREACH,
    /// Identifier removed.
    EIDRM,
    /// Illegal byte sequence.
    EILSEQ,
    /// Operation in progress.
    EINPROGRESS,
    /// Interrupted function.
    EINTR,
    /// Invalid argument.
    EINVAL,
    /// I/O error.
    EIO,
    /// Socket is connected.
    EISCONN,
    /// Is a directory.
    EISDIR,
    /// Too many levels of symbolic links.
    ELOOP,
    /// File descriptor value too large.
    EMFILE,
    /// Too many links.
    EMLINK,
    /// Message too large.
    EMSGSIZE,
    /// Reserved.
    EMULTIHOP,
    /// Filename too long.
    ENAMETOOLONG,
    /// Network is down.
    ENETDOWN,
    /// Connection aborted by network.
    ENETRESET,
    /// Network unreachable.
    ENETUNREACH,
    /// Too many files open in system.
    ENFILE,
    /// No buffer space available.
    ENOBUFS,
    /// No such device.
    ENODEV,
    /// No such file or directory.
    ENOENT,
    /// Executable file format error.
    ENOEXEC,
    /// No locks available.
    ENOLCK,
    /// Reserved.
    ENOLINK,
    /// Not enough space.
    ENOMEM,
    /// No message of the desired type.
    ENOMSG,
    /// Protocol not available.
    ENOPROTOOPT,
    /// No space left on device.
    ENOSPC,
    /// Function not supported.
    ENOSYS,
    /// The socket is not connected.
    ENOTCONN,
    /// Not a directory or a symbolic link to a directory.
    ENOTDIR,
    /// Directory not empty.
    ENOTEMPTY,
    /// State not recoverable.
    ENOTRECOVERABLE,
    /// Not a socket.
    ENOTSOCK,
    /// Not supported, or operation not supported on socket.
    ENOTSUP,
    /// Inappropriate I/O control operation.
    ENOTTY,
    /// No such device or address.
    ENXIO,
    /// Value too large to be stored in data type.
    EOVERFLOW,
    /// Previous owner died.
    EOWNERDEAD,
    /// Operation not permitted.
    EPERM,
    /// Broken pipe.
    EPIPE,
    /// Protocol error.
    EPROTO,
    /// Protocol not supported.
    EPROTONOSUPPORT,
    /// Protocol wrong type for socket.
    EPROTOTYPE,
    /// Result too large.
    ERANGE,
    /// Read-only file system.
    EROFS,
    /// Invalid seek.
    ESPIPE,
    /// No such process.
    ESRCH,
    /// Reserved.
    ESTALE,
    /// Connection timed out.
    ETIMEDOUT,
    /// Text file busy.
    ETXTBSY,
    /// Cross-device link.
    EXDEV,
    /// Capabilities insufficient.
    ENOTCAPABLE,
}

impl Error {
    /// The number that the guest ABI gives this failure.
    pub open spec fn spec_as_wasi_errno(self) -> u16 {
        match self {
            Error::E2BIG => 1,
            Error::EACCES => 2,
            Error::EADDRINUSE => 3,
            Error::EADDRNOTAVAIL => 4,
            Error::EAFNOSUPPORT => 5,
            Error::EAGAIN => 6,
            Error::EALREADY => 7,
            Error::EBADF => 8,
            Error::EBADMSG => 9,
            Error::EBUSY => 10,
            Error::ECANCELED => 11,
            Error::ECHILD => 12,
            Error::ECONNABORTED => 13,
            Error::ECONNREFUSED => 14,
            Error::ECONNRESET => 15,
            Error::EDEADLK => 16,
            Error::EDESTADDRREQ => 17,
            Error::EDOM => 18,
            Error::EDQUOT => 19,
            Error::EEXIST => 20,
            Error::EFAULT => 21,
            Error::EFBIG => 22,
            Error::EHOSTUNREACH => 23,
            Error::EIDRM => 24,
            Error::EILSEQ => 25,
            Error::EINPROGRESS => 26,
            Error::EINTR => 27,
            Error::EINVAL => 28,
            Error::EIO => 29,
            Error::EISCONN => 30,
            Error::EISDIR => 31,
            Error::ELOOP => 32,
            Error::EMFILE => 33,
            Error::EMLINK => 34,
            Error::EMSGSIZE => 35,
            Error::EMULTIHOP => 36,
            Error::ENAMETOOLONG => 37,
            Error::ENETDOWN => 38,
            Error::ENETRESET => 39,
            Error::ENETUNREACH => 40,
            Error::ENFILE => 41,
            Error::ENOBUFS => 42,
            Error::ENODEV => 43,
            Error::ENOENT => 44,
            Error::ENOEXEC => 45,
            Error::ENOLCK => 46,
            Error::ENOLINK => 47,
            Error::ENOMEM => 48,
            Error::ENOMSG => 49,
            Error::ENOPROTOOPT => 50,
            Error::ENOSPC => 51,
            Error::ENOSYS => 52,
            Error::ENOTCONN => 53,
            Error::ENOTDIR => 54,
            Error::ENOTEMPTY => 55,
            Error::ENOTRECOVERABLE => 56,
            Error::ENOTSOCK => 57,
            Error::ENOTSUP => 58,
            Error::ENOTTY => 59,
            Error::ENXIO => 60,
            Error::EOVERFLOW => 61,
            Error::EOWNERDEAD => 62,
            Error::EPERM => 63,
            Error::EPIPE => 64,
            Error::EPROTO => 65,
            Error::EPROTONOSUPPORT => 66,
            Error::EPROTOTYPE => 67,
            Error::ERANGE => 68,
            Error::EROFS => 69,
            Error::ESPIPE => 70,
            Error::ESRCH => 71,
            Error::ESTALE => 72,
            Error::ETIMEDOUT => 73,
            Error::ETXTBSY => 74,
            Error::EXDEV => 75,
            Error::ENOTCAPABLE => 76,
        }
    }

    pub fn as_wasi_errno(&self) -> (errno: u16)
        ensures
            errno == self.spec_as_wasi_errno(),
            1 <= errno <= 76,
    {
        match self {
            Error::E2BIG => 1,
            Error::EACCES => 2,
            Error::EADDRINUSE => 3,
            Error::EADDRNOTAVAIL => 4,
            Error::EAFNOSUPPORT => 5,
            Error::EAGAIN => 6,
            Error::EALREADY => 7,
            Error::EBADF => 8,
            Error::EBADMSG => 9,
            Error::EBUSY => 10,
            Error::ECANCELED => 11,
            Error::ECHILD => 12,
            Error::ECONNABORTED => 13,
            Error::ECONNREFUSED => 14,
            Error::ECONNRESET => 15,
            Error::EDEADLK => 16,
            Error::EDESTADDRREQ => 17,
            Error::EDOM => 18,
            Error::EDQUOT => 19,
            Error::EEXIST => 20,
            Error::EFAULT => 21,
            Error::EFBIG => 22,
            Error::EHOSTUNREACH => 23,
            Error::EIDRM => 24,
            Error::EILSEQ => 25,
            Error::EINPROGRESS => 26,
            Error::EINTR => 27,
            Error::EINVAL => 28,
            Error::EIO => 29,
            Error::EISCONN => 30,
            Error::EISDIR => 31,
            Error::ELOOP => 32,
            Error::EMFILE => 33,
            Error::EMLINK => 34,
            Error::EMSGSIZE => 35,
            Error::EMULTIHOP => 36,
            Error::ENAMETOOLONG => 37,
            Error::ENETDOWN => 38,
            Error::ENETRESET => 39,
            Error::ENETUNREACH => 40,
            Error::ENFILE => 41,
            Error::ENOBUFS => 42,
            Error::ENODEV => 43,
            Error::ENOENT => 44,
            Error::ENOEXEC => 45,
            Error::ENOLCK => 46,
            Error::ENOLINK => 47,
            Error::ENOMEM => 48,
            Error::ENOMSG => 49,
            Error::ENOPROTOOPT => 50,
            Error::ENOSPC => 51,
            Error::ENOSYS => 52,
            Error::ENOTCONN => 53,
            Error::ENOTDIR => 54,
            Error::ENOTEMPTY => 55,
            Error::ENOTRECOVERABLE => 56,
            Error::ENOTSOCK => 57,
            Error::ENOTSUP => 58,
            Error::ENOTTY => 59,
            Error::ENXIO => 60,
            Error::EOVERFLOW => 61,
            Error::EOWNERDEAD => 62,
            Error::EPERM => 63,
            Error::EPIPE => 64,
            Error::EPROTO => 65,
            Error::EPROTONOSUPPORT => 66,
            Error::EPROTOTYPE => 67,
            Error::ERANGE => 68,
            Error::EROFS => 69,
            Error::ESPIPE => 70,
            Error::ESRCH => 71,
            Error::ESTALE => 72,
            Error::ETIMEDOUT => 73,
            Error::ETXTBSY => 74,
            Error::EXDEV => 75,
            Error::ENOTCAPABLE => 76,
        }
    }
}

/// The failure that an error number of the host stands for. The numbers are
/// those of Linux's generic ABI; one that the guest ABI has no name for
/// stands for `ENOSYS`.
pub open spec fn spec_errno_from_host(errno: i32) -> Error {
    if errno == 1 {
        Error::EPERM
    } else if errno == 2 {
        Error::ENOENT
    } else if errno == 3 {
        Error::ESRCH
    } else if errno == 4 {
        Error::EINTR
    } else if errno == 5 {
        Error::EIO
    } else if errno == 6 {
        Error::ENXIO
    } else if errno == 7 {
        Error::E2BIG
    } else if errno == 8 {
        Error::ENOEXEC
    } else if errno == 9 {
        Error::EBADF
    } else if errno == 10 {
        Error::ECHILD
    } else if errno == 11 {
        Error::EAGAIN
    } else if errno == 12 {
        Error::ENOMEM
    } else if errno == 13 {
        Error::EACCES
    } else if errno == 14 {
        Error::EFAULT
    } else if errno == 16 {
        Error::EBUSY
    } else if errno == 17 {
        Error::EEXIST
    } else if errno == 18 {
        Error::EXDEV
    } else if errno == 19 {
        Error::ENODEV
    } else if errno == 20 {
        Error::ENOTDIR
    } else if errno == 21 {
        Error::EISDIR
    } else if errno == 22 {
        Error::EINVAL
    } else if errno == 23 {
        Error::ENFILE
    } else if errno == 24 {
        Error::EMFILE
    } else if errno == 25 {
        Error::ENOTTY
    } else if errno == 26 {
        Error::ETXTBSY
    } else if errno == 27 {
        Error::EFBIG
    } else if errno == 28 {
        Error::ENOSPC
    } else if errno == 29 {
        Error::ESPIPE
    } else if errno == 30 {
        Error::EROFS
    } else if errno == 31 {
        Error::EMLINK
    } else if errno == 32 {
        Error::EPIPE
    } else if errno == 33 {
        Error::EDOM
    } else if errno == 34 {
        Error::ERANGE
    } else if errno == 35 {
        Error::EDEADLK
    } else if errno == 36 {
        Error::ENAMETOOLONG
    } else if errno == 37 {
        Error::ENOLCK
    } else if errno == 38 {
        Error::ENOSYS
    } else if errno == 39 {
        Error::ENOTEMPTY
    } else if errno == 40 {
        Error::ELOOP
    } else if errno == 42 {
        Error::ENOMSG
    } else if errno == 43 {
        Error::EIDRM
    } else if errno == 67 {
        Error::ENOLINK
    } else if errno == 71 {
        Error::EPROTO
    } else if errno == 72 {
        Error::EMULTIHOP
    } else if errno == 74 {
        Error::EBADMSG
    } else if errno == 75 {
        Error::EOVERFLOW
    } else if errno == 84 {
        Error::EILSEQ
    } else if errno == 88 {
        Error::ENOTSOCK
    } else if errno == 89 {
        Error::EDESTADDRREQ
    } else if errno == 90 {
        Error::EMSGSIZE
    } else if errno == 91 {
        Error::EPROTOTYPE
    } else if errno == 92 {
        Error::ENOPROTOOPT
    } else if errno == 93 {
        Error::EPROTONOSUPPORT
    } else if errno == 95 {
        Error::ENOTSUP
    } else if errno == 97 {
        Error::EAFNOSUPPORT
    } else if errno == 98 {
        Error::EADDRINUSE
    } else if errno == 99 {
        Error::EADDRNOTAVAIL
    } else if errno == 100 {
        Error::ENETDOWN
    } else if errno == 101 {
        Error::ENETUNREACH
    } else if errno == 102 {
        Error::ENETRESET
    } else if errno == 103 {
        Error::ECONNABORTED
    } else if errno == 104 {
        Error::ECONNRESET
    } else if errno == 105 {
        Error::ENOBUFS
    } else if errno == 106 {
        Error::EISCONN
    } else if errno == 107 {
        Error::ENOTCONN
    } else if errno == 110 {
        Error::ETIMEDOUT
    } else if errno == 111 {
        Error::ECONNREFUSED
    } else if errno == 113 {
        Error::EHOSTUNREACH
    } else if errno == 114 {
        Error::EALREADY
    } else if errno == 115 {
        Error::EINPROGRESS
    } else if errno == 116 {
        Error::ESTALE
    } else if errno == 122 {
        Error::EDQUOT
    } else if errno == 125 {
        Error::ECANCELED
    } else if errno == 130 {
        Error::EOWNERDEAD
    } else if errno == 131 {
        Error::ENOTRECOVERABLE
    } else {
        Error::ENOSYS
    }
}

pub fn errno_from_host(errno: i32) -> (e: Error)
    ensures
        e == spec_errno_from_host(errno),
{
    match errno {
        1 => Error::EPERM,
        2 => Error::ENOENT,
        3 => Error::ESRCH,
        4 => Error::EINTR,
        5 => Error::EIO,
        6 => Error::ENXIO,
        7 => Error::E2BIG,
        8 => Error::ENOEXEC,
        9 => Error::EBADF,
        10 => Error::ECHILD,
        11 => Error::EAGAIN,
        12 => Error::ENOMEM,
        13 => Error::EACCES,
        14 => Error::EFAULT,
        16 => Error::EBUSY,
        17 => Error::EEXIST,
        18 => Error::EXDEV,
        19 => Error::ENODEV,
        20 => Error::ENOTDIR,
        21 => Error::EISDIR,
        22 => Error::EINVAL,
        23 => Error::ENFILE,
        24 => Error::EMFILE,
        25 => Error::ENOTTY,
        26 => Error::ETXTBSY,
        27 => Error::EFBIG,
        28 => Error::ENOSPC,
        29 => Error::ESPIPE,
        30 => Error::EROFS,
        31 => Error::EMLINK,
        32 => Error::EPIPE,
        33 => Error::EDOM,
        34 => Error::ERANGE,
        35 => Error::EDEADLK,
        36 => Error::ENAMETOOLONG,
        37 => Error::ENOLCK,
        38 => Error::ENOSYS,
        39 => Error::ENOTEMPTY,
        40 => Error::ELOOP,
        42 => Error::ENOMSG,
        43 => Error::EIDRM,
        67 => Error::ENOLINK,
        71 => Error::EPROTO,
        72 => Error::EMULTIHOP,
        74 => Error::EBADMSG,
        75 => Error::EOVERFLOW,
        84 => Error::EILSEQ,
        88 => Error::ENOTSOCK,
        89 => Error::EDESTADDRREQ,
        90 => Error::EMSGSIZE,
        91 => Error::EPROTOTYPE,
        92 => Error::ENOPROTOOPT,
        93 => Error::EPROTONOSUPPORT,
        95 => Error::ENOTSUP,
        97 => Error::EAFNOSUPPORT,
        98 => Error::EADDRINUSE,
        99 => Error::EADDRNOTAVAIL,
        100 => Error::ENETDOWN,
        101 => Error::ENETUNREACH,
        102 => Error::ENETRESET,
        103 => Error::ECONNABORTED,
        104 => Error::ECONNRESET,
        105 => Error::ENOBUFS,
        106 => Error::EISCONN,
        107 => Error::ENOTCONN,
        110 => Error::ETIMEDOUT,
        111 => Error::ECONNREFUSED,
        113 => Error::EHOSTUNREACH,
        114 => Error::EALREADY,
        115 => Error::EINPROGRESS,
        116 => Error::ESTALE,
        122 => Error::EDQUOT,
        125 => Error::ECANCELED,
        130 => Error::EOWNERDEAD,
        131 => Error::ENOTRECOVERABLE,
        _ => Error::ENOSYS,
    }
}

/// The host's number for an interrupted call.
pub const HOST_EINTR: i32 = 4;

/// The host's number for an invalid argument.
pub const HOST_EINVAL: i32 = 22;

/// The host's number for a control operation on something that is no terminal.
pub const HOST_ENOTTY: i32 = 25;

} // verus!
