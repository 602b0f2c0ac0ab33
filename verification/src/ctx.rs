//! The state that the guest's calls work on: its arguments, its
//! environment and its table of descriptors.
use std::collections::HashMap;
use vstd::prelude::*;
use crate::error::Error;
use crate::fdentry::Descriptor;
use crate::fdentry::FdEntry;

verus! {

broadcast use vstd::std_specs::hash::group_hash_axioms;

/// The lowest number that the table gives out by itself: below it lie the
/// numbers of the standard streams.
pub const FIRST_FREE_FD: u32 = 3;

/// The strings `strings` as sequences of bytes.
pub open spec fn spec_strings(strings: Seq<Vec<u8>>) -> Seq<Seq<u8>> {
    strings.map_values(|string: Vec<u8>| string@)
}

/// What a context holds.
pub struct WasiCtxView {
    /// The table of descriptors: which numbers are in use, and for what.
    pub fds: Map<u32, FdEntry>,
    /// The arguments of the guest, each without its closing zero byte.
    pub args: Seq<Seq<u8>>,
    /// The environment of the guest, one `KEY=VALUE` pair each, without its
    /// closing zero byte.
    pub env: Seq<Seq<u8>>,
}

pub struct WasiCtx {
    fds: HashMap<u32, FdEntry>,
    args: Vec<Vec<u8>>,
    env: Vec<Vec<u8>>,
}

impl View for WasiCtx {
    type V = WasiCtxView;

    closed spec fn view(&self) -> WasiCtxView {
        WasiCtxView {
            fds: self.fds@,
            args: spec_strings(self.args@),
            env: spec_strings(self.env@),
        }
    }
}

impl WasiCtx {
    /// The table of descriptors.
    pub open spec fn fds(&self) -> Map<u32, FdEntry> {
        self@.fds
    }

    /// What the table gives a caller that asks for the descriptor `fd` with
    /// the rights `rights_base` and `rights_inheriting`: `EBADF` for a number
    /// that is not in use, `ENOTCAPABLE` for an entry that lacks a right.
    pub open spec fn spec_resolve(&self, fd: u32, rights_base: u64, rights_inheriting: u64) -> Result<
        Descriptor,
        Error,
    > {
        if self.fds().contains_key(fd) {
            self.fds()[fd]@.spec_as_descriptor(rights_base, rights_inheriting)
        } else {
            Err(Error::EBADF)
        }
    }

    /// A context with the arguments and environment given and no descriptor.
    pub fn new(args: Vec<Vec<u8>>, env: Vec<Vec<u8>>) -> (ctx: WasiCtx)
        ensures
            ctx@.args == spec_strings(args@),
            ctx@.env == spec_strings(env@),
            ctx@.fds == Map::<u32, FdEntry>::empty(),
    {
        WasiCtx { fds: HashMap::new(), args, env }
    }

    /// The arguments of the guest.
    pub fn args(&self) -> (args: &Vec<Vec<u8>>)
        ensures
            self@.args == spec_strings(args@),
    {
        &self.args
    }

    /// The environment of the guest.
    pub fn env(&self) -> (env: &Vec<Vec<u8>>)
        ensures
            self@.env == spec_strings(env@),
    {
        &self.env
    }

    pub fn contains_fd(&self, fd: u32) -> (known: bool)
        ensures
            known == self.fds().contains_key(fd),
    {
        self.fds.contains_key(&fd)
    }

    /// The entry of `fd`, or `EBADF` where the number is not in use.
    pub fn get_fd_entry(&self, fd: u32) -> (r: Result<&FdEntry, Error>)
        ensures
            match r {
                Ok(entry) => self.fds().contains_key(fd) && *entry == self.fds()[fd],
                Err(e) => !self.fds().contains_key(fd) && e == Error::EBADF,
            },
    {
        match self.fds.get(&fd) {
            Some(entry) => Ok(entry),
            None => Err(Error::EBADF),
        }
    }

    /// The descriptor `fd`, for a caller that needs the rights `rights_base`
    /// and `rights_inheriting`.
    pub fn resolve(&self, fd: u32, rights_base: u64, rights_inheriting: u64) -> (r: Result<
        &Descriptor,
        Error,
    >)
        ensures
            match r {
                Ok(descriptor) => self.spec_resolve(fd, rights_base, rights_inheriting) == Ok::<
                    Descriptor,
                    Error,
                >(*descriptor),
                Err(e) => self.spec_resolve(fd, rights_base, rights_inheriting) == Err::<
                    Descriptor,
                    Error,
                >(e),
            },
    {
        match self.get_fd_entry(fd) {
            Ok(entry) => entry.as_descriptor(rights_base, rights_inheriting),
            Err(e) => Err(e),
        }
    }

    /// Enters `entry` under the lowest number from `FIRST_FREE_FD` on that is
    /// not in use, and gives that number. Where every such number is in use
    /// the table stays as it is and the entry comes back with `EMFILE`.
    pub fn insert_fd_entry(&mut self, entry: FdEntry) -> (r: Result<u32, (Error, FdEntry)>)
        ensures
            final(self)@.args == old(self)@.args,
            final(self)@.env == old(self)@.env,
            match r {
                Ok(fd) => {
                    &&& fd >= FIRST_FREE_FD
                    &&& !old(self).fds().contains_key(fd)
                    &&& forall|lower: u32|
                        FIRST_FREE_FD <= lower < fd ==> old(self).fds().contains_key(lower)
                    &&& final(self).fds() == old(self).fds().insert(fd, entry)
                },
                Err((e, given)) => {
                    &&& e == Error::EMFILE
                    &&& given == entry
                    &&& forall|fd: u32| fd >= FIRST_FREE_FD ==> old(self).fds().contains_key(fd)
                    &&& final(self).fds() == old(self).fds()
                },
            },
    {
        let mut fd: u32 = FIRST_FREE_FD;
        while self.fds.contains_key(&fd)
            invariant
                fd >= FIRST_FREE_FD,
                *self == *old(self),
                forall|lower: u32| FIRST_FREE_FD <= lower < fd ==> self.fds().contains_key(lower),
            decreases u32::MAX - fd,
        {
            if fd == u32::MAX {
                return Err((Error::EMFILE, entry));
            }
            fd = fd + 1;
        }
        self.fds.insert(fd, entry);
        Ok(fd)
    }

    /// Enters `entry` under the number `fd`, and gives the entry that the
    /// number stood for before, if there was one.
    pub fn insert_fd_entry_at(&mut self, fd: u32, entry: FdEntry) -> (replaced: Option<FdEntry>)
        ensures
            final(self)@.args == old(self)@.args,
            final(self)@.env == old(self)@.env,
            final(self).fds() == old(self).fds().insert(fd, entry),
            match replaced {
                Some(e) => old(self).fds().contains_key(fd) && e == old(self).fds()[fd],
                None => !old(self).fds().contains_key(fd),
            },
    {
        self.fds.insert(fd, entry)
    }

    /// Takes the entry of `fd` out of the table and gives it; `EBADF` where
    /// the number is not in use, and the table then stays as it is.
    pub fn remove_fd_entry(&mut self, fd: u32) -> (r: Result<FdEntry, Error>)
        ensures
            final(self)@.args == old(self)@.args,
            final(self)@.env == old(self)@.env,
            match r {
                Ok(entry) => {
                    &&& old(self).fds().contains_key(fd)
                    &&& entry == old(self).fds()[fd]
                    &&& final(self).fds() == old(self).fds().remove(fd)
                },
                Err(e) => {
                    &&& e == Error::EBADF
                    &&& !old(self).fds().contains_key(fd)
                    &&& final(self).fds() == old(self).fds()
                },
            },
    {
        match self.fds.remove(&fd) {
            Some(entry) => Ok(entry),
            None => {
                assert(self.fds@ =~= old(self).fds@);
                Err(Error::EBADF)
            },
        }
    }

    /// What closing `fd` does to the table and asks of the caller.
    pub open spec fn spec_fd_close(&self, fd: u32) -> Result<Option<i32>, Error> {
        if self.fds().contains_key(fd) {
            Ok(self.fds()[fd]@.descriptor.spec_release())
        } else {
            Err(Error::EBADF)
        }
    }

    /// Closes the descriptor `fd`: its entry leaves the table, and the host
    /// handle that the caller now has to close comes back, none for a
    /// standard stream. The caller closes that handle once and ignores what
    /// the close reports: after a failed close the host may have given the
    /// number to another file. A number that is not in use gives `EBADF`, so
    /// no handle is handed out for closing twice.
    pub fn fd_close(&mut self, fd: u32) -> (r: Result<Option<i32>, Error>)
        ensures
            final(self)@.args == old(self)@.args,
            final(self)@.env == old(self)@.env,
            r == old(self).spec_fd_close(fd),
            final(self).fds() == old(self).fds().remove(fd),
            !final(self).fds().contains_key(fd),
            final(self).spec_fd_close(fd) == Err::<Option<i32>, Error>(Error::EBADF),
    {
        match self.remove_fd_entry(fd) {
            Ok(entry) => Ok(entry.into_descriptor().release()),
            Err(e) => {
                assert(self.fds() =~= old(self).fds().remove(fd));
                Err(e)
            },
        }
    }
}

} // verus!
