use vstd::prelude::*;

use crate::errno::Errno;
use crate::file::File;
use crate::file::FileMeta;
use crate::file::MetaView;
use crate::inode::read_count;
use crate::inode::read_result;
use crate::inode::write_result;
use crate::inode::InodeView;

verus! {

/// A character device's open instance: a thin cursor-bearing wrapper that
/// forwards reads and writes to the inode at a tracked offset and control
/// requests to the inode directly.
pub struct CharacterFile {
    /// The shared open-instance metadata.
    pub metadata: FileMeta,
    /// The byte offset the next read or write starts at; advanced by the
    /// count actually transferred, so it never turns negative.
    pub pos: isize,
}

impl CharacterFile {
    /// The tracked byte offset.
    pub open spec fn pos_spec(&self) -> int {
        self.pos as int
    }

    /// View of the backing inode.
    pub open spec fn inode_view(&self) -> InodeView {
        self.metadata.inode.unwrap()@
    }

    /// The backing inode's size in bytes.
    pub open spec fn size_spec(&self) -> int {
        self.inode_view().bytes.len() as int
    }

    /// Opens a character device over the given metadata, with the offset at
    /// 0.
    pub fn new(metadata: FileMeta) -> (r: CharacterFile)
        ensures
            r.metadata == metadata,
            r.meta_view() == metadata@,
            r.pos_spec() == 0,
    {
        CharacterFile { metadata, pos: 0 }
    }
}

impl File for CharacterFile {
    /// A character device is backed by a well-formed inode, and its tracked
    /// offset, only ever advanced by transfer counts, is never negative.
    open spec fn valid(&self) -> bool {
        &&& match self.metadata.inode {
            Some(ind) => ind.wf(),
            None => false,
        }
        &&& self.pos_spec() >= 0
    }

    open spec fn meta_view(&self) -> MetaView {
        self.metadata@
    }

    /// A drain of a character device delivers its inode's contents; the
    /// device itself cannot be drained, since it does not support seeking.
    open spec fn file_bytes(&self) -> Seq<u8> {
        self.inode_view().bytes
    }

    /// What lies between the tracked offset and the end of the contents.
    open spec fn drain_rest(&self) -> Seq<u8> {
        if 0 <= self.pos_spec() && self.pos_spec() < self.size_spec() {
            self.inode_view().bytes.skip(self.pos_spec())
        } else {
            Seq::empty()
        }
    }

    fn metadata(&self) -> (r: &FileMeta) {
        &self.metadata
    }

    /// Reads from the inode at the tracked offset and advances the offset
    /// by the count actually transferred.
    fn read(&mut self, buf: &mut Vec<u8>) -> (r: Result<isize, Errno>)
        ensures
            final(self).meta_view() == old(self).meta_view(),
            ({
                let n = read_count(
                    old(self).inode_view().bytes,
                    old(self).pos_spec(),
                    old(buf)@.len() as int,
                );
                &&& r == Ok::<isize, Errno>(n as isize)
                &&& final(self).pos_spec() == old(self).pos_spec() + n
                &&& final(buf)@ == read_result(
                    old(self).inode_view().bytes,
                    old(self).pos_spec(),
                    old(buf)@,
                )
            }),
    {
        let count = match self.metadata.inode.as_ref() {
            Some(ind) => match ind.read(buf, self.pos) {
                Ok(c) => c,
                Err(e) => {
                    return Err(e);
                },
            },
            None => {
                return Err(Errno::EOPNOTSUPP);
            },
        };
        proof {
            let contents: Seq<u8> = old(self).inode_view().bytes;
            let n: int = read_count(contents, old(self).pos_spec(), old(buf)@.len() as int);
            assert(0 <= n <= isize::MAX as int);
            assert(n > 0 ==> old(self).pos_spec() + n <= contents.len());
        }
        self.pos = self.pos + count;
        proof {
            let n: int = count as int;
            assert(self.size_spec() == old(self).size_spec());
            assert(n <= old(self).drain_rest().len());
            assert(buf@.subrange(0, n) =~= old(self).drain_rest().take(n));
            assert(self.drain_rest() =~= old(self).drain_rest().skip(n));
        }
        Ok(count)
    }

    /// Writes to the inode at the tracked offset and advances the offset by
    /// the count actually transferred.
    fn write(&mut self, buf: &Vec<u8>) -> (r: Result<isize, Errno>)
        ensures
            final(self).meta_view().flags == old(self).meta_view().flags,
            old(self).pos_spec() + buf@.len() > isize::MAX as int ==> {
                &&& r == Err::<isize, Errno>(Errno::EOVERFLOW)
                &&& final(self).pos_spec() == old(self).pos_spec()
                &&& final(self).meta_view() == old(self).meta_view()
            },
            old(self).pos_spec() + buf@.len() <= isize::MAX as int ==> {
                &&& r == Ok::<isize, Errno>(buf@.len() as isize)
                &&& final(self).pos_spec() == old(self).pos_spec() + buf@.len()
                &&& final(self).inode_view() == old(self).inode_view().with_bytes(
                    write_result(old(self).inode_view().bytes, old(self).pos_spec(), buf@),
                )
            },
    {
        let count = match &mut self.metadata.inode {
            Some(ind) => match ind.write(buf, self.pos) {
                Ok(c) => c,
                Err(e) => {
                    return Err(e);
                },
            },
            None => {
                return Err(Errno::EOPNOTSUPP);
            },
        };
        self.pos = self.pos + count;
        Ok(count)
    }

    /// Forwards the control request verbatim to the inode and hands its
    /// result code back unchanged, without touching the tracked offset.
    fn ioctl(
        &self,
        request: usize,
        arg2: usize,
        arg3: usize,
        arg4: usize,
        arg5: usize,
    ) -> (r: Result<i32, Errno>)
        ensures
            r == Ok::<i32, Errno>(self.inode_view().ioctl_result),
    {
        match self.metadata.inode.as_ref() {
            Some(ind) => ind.ioctl(request, arg2, arg3, arg4, arg5),
            None => Err(Errno::ENOTTY),
        }
    }
}

} // verus!
