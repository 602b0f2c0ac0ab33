//! Descriptors, the entries of the descriptor table, and the classifier
//! that gives a host handle its type and its rights.
use vstd::prelude::*;
use crate::error::Error;
use crate::error::spec_errno_from_host;
use crate::error::errno_from_host;
use crate::error::HOST_EINVAL;
use crate::error::HOST_ENOTTY;
use crate::host;
use crate::os;
use crate::os::SocketKind;

verus! {

/// A handle of the host that the guest may be given access to.
#[derive(Debug, PartialEq, Eq)]
pub enum Descriptor {
    /// A handle that this descriptor owns.
    OsFile(i32),
    Stdin,
    Stdout,
    Stderr,
}

impl Descriptor {
    /// The number by which the host knows this descriptor.
    pub open spec fn spec_as_raw_fd(&self) -> i32 {
        match self {
            Descriptor::OsFile(fd) => *fd,
            Descriptor::Stdin => 0,
            Descriptor::Stdout => 1,
            Descriptor::Stderr => 2,
        }
    }

    pub fn as_raw_fd(&self) -> (fd: i32)
        ensures
            fd == self.spec_as_raw_fd(),
    {
        match self {
            Descriptor::OsFile(fd) => *fd,
            Descriptor::Stdin => 0,
            Descriptor::Stdout => 1,
            Descriptor::Stderr => 2,
        }
    }

    /// The host handle that is to be closed when this descriptor goes: the
    /// handle that an owned file holds, and none for a standard stream.
    pub open spec fn spec_release(self) -> Option<i32> {
        match self {
            Descriptor::OsFile(fd) => Some(fd),
            _ => None,
        }
    }

    /// Gives the descriptor up. What comes back is the handle that the
    /// caller now has to close, once, whatever the close reports; a standard
    /// stream is never closed. The descriptor is consumed, so no handle is
    /// handed out twice.
    pub fn release(self) -> (handle: Option<i32>)
        ensures
            handle == self.spec_release(),
    {
        match self {
            Descriptor::OsFile(fd) => Some(fd),
            _ => None,
        }
    }
}

/// The bits of a mode word that say what kind of file a handle is.
pub const S_IFMT: u32 = 0xf000;
pub const S_IFIFO: u32 = 0x1000;
pub const S_IFCHR: u32 = 0x2000;
pub const S_IFDIR: u32 = 0x4000;
pub const S_IFBLK: u32 = 0x6000;
pub const S_IFREG: u32 = 0x8000;
pub const S_IFSOCK: u32 = 0xc000;

/// The bits of the status flags that say how a handle was opened.
pub const O_ACCMODE: i32 = 3;
pub const O_RDONLY: i32 = 0;
pub const O_WRONLY: i32 = 1;

/// What the host reports a handle to be.
#[derive(Clone, Copy, Debug, PartialEq, Eq, Structural)]
pub enum HandleKind {
    BlockDevice,
    CharDevice,
    Directory,
    RegularFile,
    Socket,
    Fifo,
    Other,
}

/// The kind of file that a mode word stands for.
pub open spec fn spec_handle_kind(mode: u32) -> HandleKind {
    let format = mode & S_IFMT;
    if format == S_IFBLK {
        HandleKind::BlockDevice
    } else if format == S_IFCHR {
        HandleKind::CharDevice
    } else if format == S_IFDIR {
        HandleKind::Directory
    } else if format == S_IFREG {
        HandleKind::RegularFile
    } else if format == S_IFSOCK {
        HandleKind::Socket
    } else if format == S_IFIFO {
        HandleKind::Fifo
    } else {
        HandleKind::Other
    }
}

pub fn handle_kind(mode: u32) -> (kind: HandleKind)
    ensures
        kind == spec_handle_kind(mode),
{
    let format: u32 = mode & S_IFMT;
    if format == S_IFBLK {
        HandleKind::BlockDevice
    } else if format == S_IFCHR {
        HandleKind::CharDevice
    } else if format == S_IFDIR {
        HandleKind::Directory
    } else if format == S_IFREG {
        HandleKind::RegularFile
    } else if format == S_IFSOCK {
        HandleKind::Socket
    } else if format == S_IFIFO {
        HandleKind::Fifo
    } else {
        HandleKind::Other
    }
}

/// All that the classifier learns of a handle before it decides.
#[derive(Clone, Copy, Debug, PartialEq, Eq, Structural)]
pub enum Handle {
    BlockDevice,
    /// A character device, and whether it is a terminal.
    CharDevice { tty: bool },
    Directory,
    RegularFile,
    Socket { kind: SocketKind },
    Fifo,
    Other,
}

/// The file type and the largest base and inheriting rights of a handle.
/// A terminal hands on no more than it holds. A fifo has the rights of a
/// regular file and no known type. A socket that carries neither datagrams
/// nor a stream, and a handle of no known kind, are refused.
pub open spec fn spec_type_rights(handle: Handle) -> Result<(u8, u64, u64), Error> {
    match handle {
        Handle::BlockDevice => Ok(
            (
                host::__WASI_FILETYPE_BLOCK_DEVICE,
                host::RIGHTS_BLOCK_DEVICE_BASE,
                host::RIGHTS_BLOCK_DEVICE_INHERITING,
            ),
        ),
        Handle::CharDevice { tty: true } => Ok(
            (host::__WASI_FILETYPE_CHARACTER_DEVICE, host::RIGHTS_TTY_BASE, host::RIGHTS_TTY_BASE),
        ),
        Handle::CharDevice { tty: false } => Ok(
            (
                host::__WASI_FILETYPE_CHARACTER_DEVICE,
                host::RIGHTS_CHARACTER_DEVICE_BASE,
                host::RIGHTS_CHARACTER_DEVICE_INHERITING,
            ),
        ),
        Handle::Directory => Ok(
            (
                host::__WASI_FILETYPE_DIRECTORY,
                host::RIGHTS_DIRECTORY_BASE,
                host::RIGHTS_DIRECTORY_INHERITING,
            ),
        ),
        Handle::RegularFile => Ok(
            (
                host::__WASI_FILETYPE_REGULAR_FILE,
                host::RIGHTS_REGULAR_FILE_BASE,
                host::RIGHTS_REGULAR_FILE_INHERITING,
            ),
        ),
        Handle::Socket { kind: SocketKind::Datagram } => Ok(
            (
                host::__WASI_FILETYPE_SOCKET_DGRAM,
                host::RIGHTS_SOCKET_BASE,
                host::RIGHTS_SOCKET_INHERITING,
            ),
        ),
        Handle::Socket { kind: SocketKind::Stream } => Ok(
            (
                host::__WASI_FILETYPE_SOCKET_STREAM,
                host::RIGHTS_SOCKET_BASE,
                host::RIGHTS_SOCKET_INHERITING,
            ),
        ),
        Handle::Socket { kind: SocketKind::Other } => Err(Error::EINVAL),
        Handle::Fifo => Ok(
            (
                host::__WASI_FILETYPE_UNKNOWN,
                host::RIGHTS_REGULAR_FILE_BASE,
                host::RIGHTS_REGULAR_FILE_INHERITING,
            ),
        ),
        Handle::Other => Err(Error::EINVAL),
    }
}

/// The type and rights of a handle of which all is known.
pub fn type_rights(handle: Handle) -> (r: Result<(u8, u64, u64), Error>)
    ensures
        r == spec_type_rights(handle),
{
    match handle {
        Handle::BlockDevice => Ok(
            (
                host::__WASI_FILETYPE_BLOCK_DEVICE,
                host::RIGHTS_BLOCK_DEVICE_BASE,
                host::RIGHTS_BLOCK_DEVICE_INHERITING,
            ),
        ),
        Handle::CharDevice { tty } => if tty {
            Ok(
                (
                    host::__WASI_FILETYPE_CHARACTER_DEVICE,
                    host::RIGHTS_TTY_BASE,
                    host::RIGHTS_TTY_BASE,
                ),
            )
        } else {
            Ok(
                (
                    host::__WASI_FILETYPE_CHARACTER_DEVICE,
                    host::RIGHTS_CHARACTER_DEVICE_BASE,
                    host::RIGHTS_CHARACTER_DEVICE_INHERITING,
                ),
            )
        },
        Handle::Directory => Ok(
            (
                host::__WASI_FILETYPE_DIRECTORY,
                host::RIGHTS_DIRECTORY_BASE,
                host::RIGHTS_DIRECTORY_INHERITING,
            ),
        ),
        Handle::RegularFile => Ok(
            (
                host::__WASI_FILETYPE_REGULAR_FILE,
                host::RIGHTS_REGULAR_FILE_BASE,
                host::RIGHTS_REGULAR_FILE_INHERITING,
            ),
        ),
        Handle::Socket { kind } => match kind {
            SocketKind::Datagram => Ok(
                (
                    host::__WASI_FILETYPE_SOCKET_DGRAM,
                    host::RIGHTS_SOCKET_BASE,
                    host::RIGHTS_SOCKET_INHERITING,
                ),
            ),
            SocketKind::Stream => Ok(
                (
                    host::__WASI_FILETYPE_SOCKET_STREAM,
                    host::RIGHTS_SOCKET_BASE,
                    host::RIGHTS_SOCKET_INHERITING,
                ),
            ),
            SocketKind::Other => Err(Error::EINVAL),
        },
        Handle::Fifo => Ok(
            (
                host::__WASI_FILETYPE_UNKNOWN,
                host::RIGHTS_REGULAR_FILE_BASE,
                host::RIGHTS_REGULAR_FILE_INHERITING,
            ),
        ),
        Handle::Other => Err(Error::EINVAL),
    }
}

/// What the answer of the host to "is this a terminal?" means. A host that
/// answers "invalid argument" or "no terminal" says no; any other failure is
/// handed on.
pub open spec fn spec_tty_answer(answer: Result<bool, i32>) -> Result<bool, Error> {
    match answer {
        Ok(tty) => Ok(tty),
        Err(errno) => if errno == HOST_ENOTTY || errno == HOST_EINVAL {
            Ok(false)
        } else {
            Err(spec_errno_from_host(errno))
        },
    }
}

pub fn tty_answer(answer: Result<bool, i32>) -> (r: Result<bool, Error>)
    ensures
        r == spec_tty_answer(answer),
{
    match answer {
        Ok(tty) => Ok(tty),
        Err(errno) => if errno == HOST_ENOTTY || errno == HOST_EINVAL {
            Ok(false)
        } else {
            Err(errno_from_host(errno))
        },
    }
}

/// What the host answers when it is asked about a handle. An answer that is
/// not asked for counts for nothing.
#[derive(Clone, Copy, Debug)]
pub struct HandleAnswers {
    /// The mode word of the handle, or the host's error number.
    pub mode: Result<u32, i32>,
    /// Whether the handle is a terminal, or the host's error number. Asked
    /// of a character device only.
    pub tty: Result<bool, i32>,
    /// How the handle carries its data, or the host's error number. Asked of
    /// a socket only.
    pub socket: Result<SocketKind, i32>,
    /// The status flags that the handle was opened with, or the host's
    /// error number. Asked only where the access mode counts, and only of a
    /// handle that has its type and rights.
    pub flags: Result<i32, i32>,
}

/// All that the answers of the host tell of a handle, or the failure that
/// they stand for: a failure of the host is handed on.
pub open spec fn spec_handle(answers: HandleAnswers) -> Result<Handle, Error> {
    match answers.mode {
        Err(errno) => Err(spec_errno_from_host(errno)),
        Ok(mode) => match spec_handle_kind(mode) {
            HandleKind::BlockDevice => Ok(Handle::BlockDevice),
            HandleKind::CharDevice => match spec_tty_answer(answers.tty) {
                Ok(tty) => Ok(Handle::CharDevice { tty }),
                Err(e) => Err(e),
            },
            HandleKind::Directory => Ok(Handle::Directory),
            HandleKind::RegularFile => Ok(Handle::RegularFile),
            HandleKind::Socket => match answers.socket {
                Ok(kind) => Ok(Handle::Socket { kind }),
                Err(errno) => Err(spec_errno_from_host(errno)),
            },
            HandleKind::Fifo => Ok(Handle::Fifo),
            HandleKind::Other => Ok(Handle::Other),
        },
    }
}

/// The file type and the largest base and inheriting rights of the handle of
/// which the host gives the answers `answers`.
pub open spec fn spec_classify(answers: HandleAnswers) -> Result<(u8, u64, u64), Error> {
    match spec_handle(answers) {
        Ok(handle) => spec_type_rights(handle),
        Err(e) => Err(e),
    }
}

pub fn classify(answers: &HandleAnswers) -> (r: Result<(u8, u64, u64), Error>)
    ensures
        r == spec_classify(*answers),
{
    let mode = match answers.mode {
        Ok(mode) => mode,
        Err(errno) => {
            return Err(errno_from_host(errno));
        },
    };
    let handle = match handle_kind(mode) {
        HandleKind::BlockDevice => Handle::BlockDevice,
        HandleKind::CharDevice => match tty_answer(answers.tty) {
            Ok(tty) => Handle::CharDevice { tty },
            Err(e) => {
                return Err(e);
            },
        },
        HandleKind::Directory => Handle::Directory,
        HandleKind::RegularFile => Handle::RegularFile,
        HandleKind::Socket => match answers.socket {
            Ok(kind) => Handle::Socket { kind },
            Err(errno) => {
                return Err(errno_from_host(errno));
            },
        },
        HandleKind::Fifo => Handle::Fifo,
        HandleKind::Other => Handle::Other,
    };
    type_rights(handle)
}

/// Asks the host what the handle `fd` is, and gives its file type and its
/// largest base and inheriting rights. The host is asked for the mode word
/// of the handle, then, of a character device, whether it is a terminal,
/// and, of a socket, how it carries its data. Whatever the host answers, the
/// result is what `classify` makes of its answers.
pub fn determine_type_rights(fd: i32) -> (r: Result<(u8, u64, u64), Error>)
    ensures
        exists|answers: HandleAnswers| r == #[trigger] spec_classify(answers),
{
    let mode = os::fstat_mode(fd);
    let kind = match mode {
        Ok(mode) => handle_kind(mode),
        Err(_) => HandleKind::Other,
    };
    let tty = match kind {
        HandleKind::CharDevice => os::isatty(fd),
        _ => Ok(false),
    };
    let socket = match kind {
        HandleKind::Socket => os::socket_kind(fd),
        _ => Ok(SocketKind::Other),
    };
    let answers = HandleAnswers { mode, tty, socket, flags: Ok(0) };
    let r = classify(&answers);
    assert(r == spec_classify(answers));
    r
}

/// The base rights that are left of `rights_base` on a handle opened with the
/// status flags `flags`: a handle opened for reading only may not be
/// written, and one opened for writing only may not be read.
pub open spec fn spec_restrict_to_access_mode(rights_base: u64, flags: i32) -> u64 {
    let mode = flags & O_ACCMODE;
    if mode == O_RDONLY {
        rights_base & !host::__WASI_RIGHT_FD_WRITE
    } else if mode == O_WRONLY {
        rights_base & !host::__WASI_RIGHT_FD_READ
    } else {
        rights_base
    }
}

pub fn restrict_to_access_mode(rights_base: u64, flags: i32) -> (r: u64)
    ensures
        r == spec_restrict_to_access_mode(rights_base, flags),
        host::has_rights(rights_base, r),
        flags & O_ACCMODE == O_RDONLY ==> r & host::__WASI_RIGHT_FD_WRITE == 0,
        flags & O_ACCMODE == O_WRONLY ==> r & host::__WASI_RIGHT_FD_READ == 0,
{
    let mode: i32 = flags & O_ACCMODE;
    proof {
        assert(rights_base & (rights_base & !0x40u64) == rights_base & !0x40u64
            && rights_base & (rights_base & !0x2u64) == rights_base & !0x2u64 && rights_base
            & rights_base == rights_base && (rights_base & !0x40u64) & 0x40 == 0 && (rights_base
            & !0x2u64) & 0x2 == 0) by (bit_vector);
    }
    if mode == O_RDONLY {
        rights_base & !host::__WASI_RIGHT_FD_WRITE
    } else if mode == O_WRONLY {
        rights_base & !host::__WASI_RIGHT_FD_READ
    } else {
        rights_base
    }
}

/// The file type and rights of a handle opened with the status flags
/// `flags`: those of its kind, the base rights cut down to what the handle
/// was opened for.
pub open spec fn spec_type_and_access_rights(handle: Handle, flags: i32) -> Result<
    (u8, u64, u64),
    Error,
> {
    match spec_type_rights(handle) {
        Ok((file_type, rights_base, rights_inheriting)) => Ok(
            (file_type, spec_restrict_to_access_mode(rights_base, flags), rights_inheriting),
        ),
        Err(e) => Err(e),
    }
}

pub fn type_and_access_rights(handle: Handle, flags: i32) -> (r: Result<(u8, u64, u64), Error>)
    ensures
        r == spec_type_and_access_rights(handle, flags),
{
    match type_rights(handle) {
        Ok((file_type, rights_base, rights_inheriting)) => Ok(
            (file_type, restrict_to_access_mode(rights_base, flags), rights_inheriting),
        ),
        Err(e) => Err(e),
    }
}

/// The file type and rights of the handle of which the host gives the
/// answers `answers`: those of its kind, the base rights cut down to what
/// the handle was opened for. A handle that has no type and rights is not
/// asked for its status flags.
pub open spec fn spec_classify_with_access_mode(answers: HandleAnswers) -> Result<
    (u8, u64, u64),
    Error,
> {
    match spec_handle(answers) {
        Ok(handle) => match spec_type_rights(handle) {
            Ok(_) => match answers.flags {
                Ok(flags) => spec_type_and_access_rights(handle, flags),
                Err(errno) => Err(spec_errno_from_host(errno)),
            },
            Err(e) => Err(e),
        },
        Err(e) => Err(e),
    }
}

pub fn classify_with_access_mode(answers: &HandleAnswers) -> (r: Result<(u8, u64, u64), Error>)
    ensures
        r == spec_classify_with_access_mode(*answers),
        r matches Ok((_, rights_base, _)) ==> {
            &&& answers.flags matches Ok(flags)
            &&& flags & O_ACCMODE == O_RDONLY ==> rights_base & host::__WASI_RIGHT_FD_WRITE == 0
            &&& flags & O_ACCMODE == O_WRONLY ==> rights_base & host::__WASI_RIGHT_FD_READ == 0
        },
{
    proof {
        lemma_access_mode_bounds_rights(*answers);
    }
    let (file_type, rights_base, rights_inheriting) = match classify(answers) {
        Ok(t) => t,
        Err(e) => {
            return Err(e);
        },
    };
    match answers.flags {
        Ok(flags) => Ok(
            (file_type, restrict_to_access_mode(rights_base, flags), rights_inheriting),
        ),
        Err(errno) => Err(errno_from_host(errno)),
    }
}

/// Whatever the host answers of a handle: opened for reading only, the
/// handle is given no right to write; opened for writing only, no right to
/// read. Its type and its inheriting rights are those of its kind, and its
/// base rights are never more than its kind allows.
pub proof fn lemma_access_mode_bounds_rights(answers: HandleAnswers)
    ensures
        spec_classify_with_access_mode(answers) matches Ok(
            (file_type, rights_base, rights_inheriting),
        ) ==> {
            &&& answers.flags matches Ok(flags)
            &&& flags & O_ACCMODE == O_RDONLY ==> rights_base & host::__WASI_RIGHT_FD_WRITE == 0
            &&& flags & O_ACCMODE == O_WRONLY ==> rights_base & host::__WASI_RIGHT_FD_READ == 0
            &&& spec_classify(answers) matches Ok((t, max_base, max_inheriting))
            &&& file_type == t
            &&& rights_inheriting == max_inheriting
            &&& host::has_rights(max_base, rights_base)
        },
{
    match spec_classify(answers) {
        Ok((file_type, rights_base, rights_inheriting)) => {
            assert(rights_base & (rights_base & !0x40u64) == rights_base & !0x40u64
                && rights_base & (rights_base & !0x2u64) == rights_base & !0x2u64
                && rights_base & rights_base == rights_base && (rights_base & !0x40u64) & 0x40
                == 0 && (rights_base & !0x2u64) & 0x2 == 0) by (bit_vector);
        },
        Err(_) => {},
    }
}

/// Asks the host what the handle `fd` is and how it was opened, and gives
/// its file type and its rights, the base rights cut down to what the handle
/// was opened for. The host is asked as for the type and rights alone, and
/// then, where the handle has them, for its status flags. Whatever the host
/// answers, the result is what `classify_with_access_mode` makes of its
/// answers.
pub fn determine_type_and_access_rights(fd: i32) -> (r: Result<(u8, u64, u64), Error>)
    ensures
        exists|answers: HandleAnswers| r == #[trigger] spec_classify_with_access_mode(answers),
{
    let mode = os::fstat_mode(fd);
    let kind = match mode {
        Ok(mode) => handle_kind(mode),
        Err(_) => HandleKind::Other,
    };
    let tty = match kind {
        HandleKind::CharDevice => os::isatty(fd),
        _ => Ok(false),
    };
    let socket = match kind {
        HandleKind::Socket => os::socket_kind(fd),
        _ => Ok(SocketKind::Other),
    };
    let unasked = HandleAnswers { mode, tty, socket, flags: Ok(0) };
    let flags = match classify(&unasked) {
        Ok(_) => os::status_flags(fd),
        Err(_) => Ok(0),
    };
    let answers = HandleAnswers { mode, tty, socket, flags };
    let r = classify_with_access_mode(&answers);
    assert(r == spec_classify_with_access_mode(answers));
    r
}

/// What an entry of the descriptor table is: a descriptor with its file
/// type, the rights it holds now, and the rights it was entered with.
pub struct FdEntryView {
    pub file_type: u8,
    pub descriptor: Descriptor,
    /// What may be asked of the descriptor itself.
    pub rights_base: u64,
    /// What may be given to a descriptor derived from it.
    pub rights_inheriting: u64,
    /// The base rights that the entry was made with.
    pub max_rights_base: u64,
    /// The inheriting rights that the entry was made with.
    pub max_rights_inheriting: u64,
}

impl FdEntryView {
    /// An entry never holds a right that it was not made with.
    pub open spec fn wf(self) -> bool {
        &&& host::has_rights(self.max_rights_base, self.rights_base)
        &&& host::has_rights(self.max_rights_inheriting, self.rights_inheriting)
    }

    /// The descriptor, for a caller that needs the rights `rights_base` and
    /// `rights_inheriting`: the entry must hold each of them.
    pub open spec fn spec_as_descriptor(self, rights_base: u64, rights_inheriting: u64) -> Result<
        Descriptor,
        Error,
    > {
        if host::has_rights(self.rights_base, rights_base) && host::has_rights(
            self.rights_inheriting,
            rights_inheriting,
        ) {
            Ok(self.descriptor)
        } else {
            Err(Error::ENOTCAPABLE)
        }
    }
}

/// An entry of the descriptor table.
pub struct FdEntry {
    file_type: u8,
    descriptor: Descriptor,
    rights_base: u64,
    rights_inheriting: u64,
    max_rights_base: Ghost<u64>,
    max_rights_inheriting: Ghost<u64>,
}

impl View for FdEntry {
    type V = FdEntryView;

    closed spec fn view(&self) -> FdEntryView {
        FdEntryView {
            file_type: self.file_type,
            descriptor: self.descriptor,
            rights_base: self.rights_base,
            rights_inheriting: self.rights_inheriting,
            max_rights_base: self.max_rights_base@,
            max_rights_inheriting: self.max_rights_inheriting@,
        }
    }
}

impl FdEntry {
    #[verifier::type_invariant]
    spec fn inv(self) -> bool {
        self@.wf()
    }

    /// An entry for `descriptor` with the rights given.
    pub fn new(file_type: u8, descriptor: Descriptor, rights_base: u64, rights_inheriting: u64) -> (e:
        FdEntry)
        ensures
            e@ == (FdEntryView {
                file_type,
                descriptor,
                rights_base,
                rights_inheriting,
                max_rights_base: rights_base,
                max_rights_inheriting: rights_inheriting,
            }),
            e@.wf(),
    {
        proof {
            assert(rights_base & rights_base == rights_base && rights_inheriting
                & rights_inheriting == rights_inheriting) by (bit_vector);
        }
        FdEntry {
            file_type,
            descriptor,
            rights_base,
            rights_inheriting,
            max_rights_base: Ghost(rights_base),
            max_rights_inheriting: Ghost(rights_inheriting),
        }
    }

    /// An entry for `descriptor`, with the file type and the rights that the
    /// classifier gives its handle, whatever the host answers of it.
    pub fn from_descriptor(descriptor: Descriptor) -> (r: Result<FdEntry, Error>)
        ensures
            exists|answers: HandleAnswers|
                match #[trigger] spec_classify_with_access_mode(answers) {
                    Ok((file_type, rights_base, rights_inheriting)) => r matches Ok(e) && e@ == (
                    FdEntryView {
                        file_type,
                        descriptor,
                        rights_base,
                        rights_inheriting,
                        max_rights_base: rights_base,
                        max_rights_inheriting: rights_inheriting,
                    }),
                    Err(e) => r matches Err(failure) && failure == e,
                },
            r matches Ok(e) ==> e@.wf(),
    {
        match determine_type_and_access_rights(descriptor.as_raw_fd()) {
            Ok((file_type, rights_base, rights_inheriting)) => Ok(
                FdEntry::new(file_type, descriptor, rights_base, rights_inheriting),
            ),
            Err(e) => Err(e),
        }
    }

    pub fn file_type(&self) -> (file_type: u8)
        ensures
            file_type == self@.file_type,
    {
        self.file_type
    }

    pub fn rights_base(&self) -> (rights: u64)
        ensures
            rights == self@.rights_base,
            host::has_rights(self@.max_rights_base, rights),
    {
        proof {
            use_type_invariant(self);
        }
        self.rights_base
    }

    pub fn rights_inheriting(&self) -> (rights: u64)
        ensures
            rights == self@.rights_inheriting,
            host::has_rights(self@.max_rights_inheriting, rights),
    {
        proof {
            use_type_invariant(self);
        }
        self.rights_inheriting
    }

    /// The descriptor, if the entry holds every right of `rights_base` and of
    /// `rights_inheriting`; `ENOTCAPABLE` if it lacks one.
    pub fn as_descriptor(&self, rights_base: u64, rights_inheriting: u64) -> (r: Result<
        &Descriptor,
        Error,
    >)
        ensures
            match r {
                Ok(descriptor) => self@.spec_as_descriptor(rights_base, rights_inheriting) == Ok::<
                    Descriptor,
                    Error,
                >(*descriptor),
                Err(e) => self@.spec_as_descriptor(rights_base, rights_inheriting) == Err::<
                    Descriptor,
                    Error,
                >(e),
            },
    {
        if self.rights_base & rights_base == rights_base && self.rights_inheriting
            & rights_inheriting == rights_inheriting {
            Ok(&self.descriptor)
        } else {
            Err(Error::ENOTCAPABLE)
        }
    }

    /// Takes from the entry every right that `rights_base` and
    /// `rights_inheriting` do not name. Rights are never added.
    pub fn restrict_rights(&mut self, rights_base: u64, rights_inheriting: u64)
        ensures
            final(self)@ == (FdEntryView {
                rights_base: old(self)@.rights_base & rights_base,
                rights_inheriting: old(self)@.rights_inheriting & rights_inheriting,
                ..old(self)@
            }),
            host::has_rights(old(self)@.rights_base, final(self)@.rights_base),
            host::has_rights(old(self)@.rights_inheriting, final(self)@.rights_inheriting),
            final(self)@.wf(),
    {
        proof {
            use_type_invariant(&*self);
            lemma_rights_shrink(self.max_rights_base@, self.rights_base, rights_base);
            lemma_rights_shrink(
                self.max_rights_inheriting@,
                self.rights_inheriting,
                rights_inheriting,
            );
        }
        self.rights_base = self.rights_base & rights_base;
        self.rights_inheriting = self.rights_inheriting & rights_inheriting;
    }

    /// Takes the entry apart and gives its descriptor.
    pub fn into_descriptor(self) -> (descriptor: Descriptor)
        ensures
            descriptor == self@.descriptor,
    {
        self.descriptor
    }
}

/// Rights that are cut down stay within what held them before.
pub proof fn lemma_rights_shrink(max: u64, rights: u64, mask: u64)
    requires
        host::has_rights(max, rights),
    ensures
        host::has_rights(max, rights & mask),
        host::has_rights(rights, rights & mask),
{
    assert(max & rights == rights ==> max & (rights & mask) == rights & mask && rights & (rights
        & mask) == rights & mask) by (bit_vector);
}

} // verus!
