use wasi_common::ctx::{WasiCtx, FIRST_FREE_FD};
use wasi_common::error::Error;
use wasi_common::fdentry::{Descriptor, FdEntry};
use wasi_common::fs::{Dir, File, ReadDir};
use wasi_common::fs_helpers::{path_open, PathOpen};
use wasi_common::host;

use nix::unistd::{close, pipe};

fn entry(descriptor: Descriptor, rights_base: u64, rights_inheriting: u64) -> FdEntry {
    FdEntry::new(host::__WASI_FILETYPE_REGULAR_FILE, descriptor, rights_base, rights_inheriting)
}

fn insert(ctx: &mut WasiCtx, e: FdEntry) -> u32 {
    match ctx.insert_fd_entry(e) {
        Ok(fd) => fd,
        Err((error, _)) => panic!("no number is free: {:?}", error),
    }
}

/// Stands in for the host where a close is to be counted.
struct Closer {
    closed: Vec<i32>,
}

impl Closer {
    fn close(&mut self, handle: Option<i32>) {
        if let Some(handle) = handle {
            self.closed.push(handle);
        }
    }
}

#[test]
fn descriptor_numbers() {
    assert_eq!(Descriptor::OsFile(17).as_raw_fd(), 17);
    assert_eq!(Descriptor::Stdin.as_raw_fd(), 0);
    assert_eq!(Descriptor::Stdout.as_raw_fd(), 1);
    assert_eq!(Descriptor::Stderr.as_raw_fd(), 2);
}

#[test]
fn release_names_the_handle_of_an_owned_file_only() {
    assert_eq!(Descriptor::OsFile(17).release(), Some(17));
    assert_eq!(Descriptor::Stdin.release(), None);
    assert_eq!(Descriptor::Stdout.release(), None);
    assert_eq!(Descriptor::Stderr.release(), None);
}

#[test]
fn entry_holds_what_it_was_made_with() {
    let e = FdEntry::new(host::__WASI_FILETYPE_DIRECTORY, Descriptor::OsFile(9), 0x2002, 0x42);
    assert_eq!(e.file_type(), host::__WASI_FILETYPE_DIRECTORY);
    assert_eq!(e.rights_base(), 0x2002);
    assert_eq!(e.rights_inheriting(), 0x42);
    assert_eq!(e.into_descriptor(), Descriptor::OsFile(9));
}

#[test]
fn as_descriptor_wants_every_right() {
    let e = entry(Descriptor::OsFile(9), 0x2002, 0x42);
    assert_eq!(e.as_descriptor(0x2, 0), Ok(&Descriptor::OsFile(9)));
    assert_eq!(e.as_descriptor(0x2002, 0x42), Ok(&Descriptor::OsFile(9)));
    assert_eq!(e.as_descriptor(0, 0), Ok(&Descriptor::OsFile(9)));
    assert_eq!(e.as_descriptor(0x40, 0), Err(Error::ENOTCAPABLE));
    assert_eq!(e.as_descriptor(0x2 | 0x40, 0), Err(Error::ENOTCAPABLE));
    assert_eq!(e.as_descriptor(0x2, 0x1), Err(Error::ENOTCAPABLE));
}

#[test]
fn restrict_rights_only_takes_away() {
    let mut e = entry(Descriptor::Stdout, 0x2002, 0x42);
    e.restrict_rights(0x2 | 0x40, !0);
    assert_eq!(e.rights_base(), 0x2);
    assert_eq!(e.rights_inheriting(), 0x42);
    e.restrict_rights(!0, 0x2);
    assert_eq!(e.rights_base(), 0x2);
    assert_eq!(e.rights_inheriting(), 0x2);
    e.restrict_rights(host::RIGHTS_ALL, host::RIGHTS_ALL);
    assert_eq!(e.rights_base(), 0x2);
    assert_eq!(e.rights_inheriting(), 0x2);
    e.restrict_rights(0, 0);
    assert_eq!(e.rights_base(), 0);
    assert_eq!(e.rights_inheriting(), 0);
}

#[test]
fn from_descriptor_classifies_the_handle() {
    let (r, w) = pipe().unwrap();
    let e = FdEntry::from_descriptor(Descriptor::OsFile(r)).unwrap();
    assert_eq!(e.file_type(), host::__WASI_FILETYPE_UNKNOWN);
    assert_eq!(e.rights_base(), host::RIGHTS_REGULAR_FILE_BASE & !host::__WASI_RIGHT_FD_WRITE);
    assert_eq!(e.rights_inheriting(), 0);
    assert_eq!(e.as_descriptor(host::__WASI_RIGHT_FD_READ, 0), Ok(&Descriptor::OsFile(r)));
    assert_eq!(e.as_descriptor(host::__WASI_RIGHT_FD_WRITE, 0), Err(Error::ENOTCAPABLE));
    assert_eq!(e.into_descriptor().release(), Some(r));
    close(r).unwrap();
    close(w).unwrap();
    assert!(matches!(FdEntry::from_descriptor(Descriptor::OsFile(-1)), Err(Error::EBADF)));
}

#[test]
fn new_context_has_no_descriptor() {
    let ctx = WasiCtx::new(vec![b"prog".to_vec()], vec![b"A=b".to_vec()]);
    assert_eq!(ctx.args(), &vec![b"prog".to_vec()]);
    assert_eq!(ctx.env(), &vec![b"A=b".to_vec()]);
    for fd in 0..8 {
        assert!(!ctx.contains_fd(fd));
        assert!(matches!(ctx.get_fd_entry(fd), Err(Error::EBADF)));
        assert_eq!(ctx.resolve(fd, 0, 0), Err(Error::EBADF));
    }
}

#[test]
fn insert_gives_the_lowest_free_number_from_three() {
    let mut ctx = WasiCtx::new(vec![], vec![]);
    assert_eq!(FIRST_FREE_FD, 3);
    assert_eq!(insert(&mut ctx, entry(Descriptor::OsFile(10), 0, 0)), 3);
    assert_eq!(insert(&mut ctx, entry(Descriptor::OsFile(11), 0, 0)), 4);
    assert_eq!(insert(&mut ctx, entry(Descriptor::OsFile(12), 0, 0)), 5);
    assert!(ctx.remove_fd_entry(4).is_ok());
    assert_eq!(insert(&mut ctx, entry(Descriptor::OsFile(13), 0, 0)), 4);
    assert!(!ctx.contains_fd(0));
    assert!(ctx.contains_fd(3));
    assert_eq!(ctx.resolve(4, 0, 0), Ok(&Descriptor::OsFile(13)));
}

#[test]
fn insert_at_replaces() {
    let mut ctx = WasiCtx::new(vec![], vec![]);
    assert!(ctx.insert_fd_entry_at(0, entry(Descriptor::Stdin, 0x2, 0)).is_none());
    assert!(ctx.insert_fd_entry_at(7, entry(Descriptor::OsFile(20), 0x2, 0)).is_none());
    let replaced = ctx.insert_fd_entry_at(7, entry(Descriptor::OsFile(21), 0x40, 0));
    assert_eq!(replaced.map(|e| e.into_descriptor()), Some(Descriptor::OsFile(20)));
    assert_eq!(ctx.resolve(7, 0x40, 0), Ok(&Descriptor::OsFile(21)));
    assert_eq!(ctx.resolve(0, 0x2, 0), Ok(&Descriptor::Stdin));
    assert_eq!(insert(&mut ctx, entry(Descriptor::OsFile(22), 0, 0)), 3);
}

#[test]
fn resolve_tells_unknown_from_not_capable() {
    let mut ctx = WasiCtx::new(vec![], vec![]);
    let fd = insert(&mut ctx, entry(Descriptor::OsFile(10), host::__WASI_RIGHT_FD_READ, 0));
    assert_eq!(ctx.resolve(fd, host::__WASI_RIGHT_FD_READ, 0), Ok(&Descriptor::OsFile(10)));
    assert_eq!(ctx.resolve(fd, host::__WASI_RIGHT_FD_WRITE, 0), Err(Error::ENOTCAPABLE));
    assert_eq!(ctx.resolve(fd + 1, host::__WASI_RIGHT_FD_READ, 0), Err(Error::EBADF));
}

#[test]
fn remove_takes_the_entry_out_once() {
    let mut ctx = WasiCtx::new(vec![], vec![]);
    let fd = insert(&mut ctx, entry(Descriptor::OsFile(10), 0, 0));
    let e = ctx.remove_fd_entry(fd).unwrap_or_else(|e| panic!("{:?}", e));
    assert_eq!(e.into_descriptor(), Descriptor::OsFile(10));
    assert!(matches!(ctx.remove_fd_entry(fd), Err(Error::EBADF)));
    assert!(!ctx.contains_fd(fd));
}

#[test]
fn closing_twice_closes_the_handle_once() {
    let mut ctx = WasiCtx::new(vec![], vec![]);
    let mut host = Closer { closed: vec![] };
    let fd = insert(&mut ctx, entry(Descriptor::OsFile(10), 0, 0));
    let other = insert(&mut ctx, entry(Descriptor::OsFile(11), 0, 0));
    assert_eq!(ctx.fd_close(fd), Ok(Some(10)));
    host.close(Some(10));
    let again = ctx.fd_close(fd);
    assert_eq!(again, Err(Error::EBADF));
    host.close(again.unwrap_or(None));
    assert_eq!(host.closed, vec![10]);
    assert!(ctx.contains_fd(other));
    let last = ctx.fd_close(other);
    assert_eq!(last, Ok(Some(11)));
    host.close(last.unwrap());
    assert_eq!(host.closed, vec![10, 11]);
}

#[test]
fn closing_a_standard_stream_closes_nothing() {
    let mut ctx = WasiCtx::new(vec![], vec![]);
    let mut host = Closer { closed: vec![] };
    ctx.insert_fd_entry_at(0, entry(Descriptor::Stdin, 0x2, 0));
    ctx.insert_fd_entry_at(1, entry(Descriptor::Stdout, 0x40, 0));
    ctx.insert_fd_entry_at(2, entry(Descriptor::Stderr, 0x40, 0));
    for fd in 0..3 {
        let handle = ctx.fd_close(fd);
        assert_eq!(handle, Ok(None));
        host.close(handle.unwrap());
        assert!(!ctx.contains_fd(fd));
        assert_eq!(ctx.fd_close(fd), Err(Error::EBADF));
    }
    assert!(host.closed.is_empty());
}

#[test]
fn closing_a_real_handle_once() {
    let (r, w) = pipe().unwrap();
    let mut ctx = WasiCtx::new(vec![], vec![]);
    let e = FdEntry::from_descriptor(Descriptor::OsFile(r)).unwrap();
    let fd = insert(&mut ctx, e);
    let handle = ctx.fd_close(fd).unwrap();
    assert_eq!(handle, Some(r));
    assert!(close(handle.unwrap()).is_ok());
    assert_eq!(ctx.fd_close(fd), Err(Error::EBADF));
    close(w).unwrap();
}

#[test]
fn file_and_dir_close_once() {
    let mut ctx = WasiCtx::new(vec![], vec![]);
    let mut host = Closer { closed: vec![] };
    let a = insert(&mut ctx, entry(Descriptor::OsFile(30), 0, 0));
    let b = insert(&mut ctx, entry(Descriptor::OsFile(31), 0, 0));
    let file = File::from_raw_wasi_fd(a);
    assert_eq!(file.as_raw_wasi_fd(), a);
    host.close(file.close(&mut ctx));
    host.close(File::from_raw_wasi_fd(a).close(&mut ctx));
    host.close(Dir::from_raw_wasi_fd(b).close(&mut ctx));
    host.close(Dir::from_raw_wasi_fd(b).close(&mut ctx));
    host.close(Dir::from_raw_wasi_fd(99).close(&mut ctx));
    assert_eq!(host.closed, vec![30, 31]);
    assert_eq!(ReadDir::from_raw_wasi_fd(5).as_raw_wasi_fd(), 5);
}

#[test]
fn path_open_asks_the_directory_for_its_rights() {
    let mut ctx = WasiCtx::new(vec![], vec![]);
    let dir = insert(
        &mut ctx,
        entry(
            Descriptor::OsFile(40),
            host::RIGHTS_DIRECTORY_BASE,
            host::RIGHTS_DIRECTORY_INHERITING,
        ),
    );
    let read = host::__WASI_RIGHT_FD_READ;
    assert_eq!(
        path_open(&ctx, dir, 1, 0, read, 0, 0),
        Ok(PathOpen {
            dirfd: 40,
            dirflags: 1,
            oflags: 0,
            fs_rights_base: read,
            fs_rights_inheriting: 0,
            fs_flags: 0
        })
    );
    assert!(path_open(&ctx, dir, 1, host::__WASI_O_CREAT, read, 0, 0).is_ok());
    assert!(path_open(&ctx, dir, 1, host::__WASI_O_TRUNC, read, 0, host::__WASI_FDFLAG_DSYNC)
        .is_ok());
    assert_eq!(
        path_open(&ctx, dir, 1, 0, host::__WASI_RIGHT_SOCK_SHUTDOWN, 0, 0),
        Err(Error::ENOTCAPABLE)
    );
    assert_eq!(path_open(&ctx, dir + 1, 1, 0, read, 0, 0), Err(Error::EBADF));
    let file = insert(&mut ctx, entry(Descriptor::OsFile(41), host::RIGHTS_REGULAR_FILE_BASE, 0));
    assert_eq!(path_open(&ctx, file, 1, 0, 0, 0, 0), Err(Error::ENOTCAPABLE));
    let no_create = insert(
        &mut ctx,
        entry(Descriptor::OsFile(42), host::__WASI_RIGHT_PATH_OPEN, host::RIGHTS_ALL),
    );
    assert!(path_open(&ctx, no_create, 0, 0, read, 0, 0).is_ok());
    assert_eq!(
        path_open(&ctx, no_create, 0, host::__WASI_O_CREAT, read, 0, 0),
        Err(Error::ENOTCAPABLE)
    );
    ctx.insert_fd_entry_at(0, entry(Descriptor::Stdin, !0, !0));
    assert_eq!(path_open(&ctx, 0, 0, 0, read, 0, 0), Err(Error::EBADF));
}

#[test]
fn dir_opens_with_every_right() {
    let mut ctx = WasiCtx::new(vec![], vec![]);
    let all = insert(&mut ctx, entry(Descriptor::OsFile(50), !0, !0));
    let usual = insert(
        &mut ctx,
        entry(
            Descriptor::OsFile(51),
            host::RIGHTS_DIRECTORY_BASE,
            host::RIGHTS_DIRECTORY_INHERITING,
        ),
    );
    assert_eq!(
        Dir::from_raw_wasi_fd(all).open_file(&ctx),
        Ok(PathOpen {
            dirfd: 50,
            dirflags: 1,
            oflags: 0,
            fs_rights_base: !0,
            fs_rights_inheriting: !0,
            fs_flags: 0
        })
    );
    assert_eq!(
        Dir::from_raw_wasi_fd(all).open_dir(&ctx),
        Ok(PathOpen {
            dirfd: 50,
            dirflags: 1,
            oflags: host::__WASI_O_DIRECTORY,
            fs_rights_base: !0,
            fs_rights_inheriting: !0,
            fs_flags: 0
        })
    );
    assert_eq!(Dir::from_raw_wasi_fd(usual).open_file(&ctx), Err(Error::ENOTCAPABLE));
    assert_eq!(Dir::from_raw_wasi_fd(usual).open_dir(&ctx), Err(Error::ENOTCAPABLE));
    assert_eq!(Dir::from_raw_wasi_fd(77).open_file(&ctx), Err(Error::EBADF));
}
