use vstd::prelude::*;

use crate::errno::Errno;
use crate::file::File;
use crate::file::FileMeta;
use crate::file::MetaView;
use crate::file::Seek;
use crate::inode::read_count;
use crate::inode::read_result;
use crate::inode::truncate_result;
use crate::inode::write_result;
use crate::inode::InodeView;

verus! {

/// Outcome of the overflow-checked addition both relative seek modes use:
/// a sum above the largest representable position is a numeric overflow,
/// one below the smallest is an invalid argument (the offset must have been
/// negative), anything else is the new position.
pub open spec fn add_outcome(base: int, off: int) -> Result<int, Errno> {
    if base + off > isize::MAX as int {
        Err(Errno::EOVERFLOW)
    } else if base + off < isize::MIN as int {
        Err(Errno::EINVAL)
    } else {
        Ok(base + off)
    }
}

/// The position a seek computes from the current position and the file
/// size, or the error it fails with: a negative absolute offset is an
/// invalid argument, and both relative modes use overflow-checked
/// addition.
pub open spec fn seek_outcome(pos: int, size: int, s: Seek) -> Result<int, Errno> {
    match s {
        Seek::Start(o) => if o < 0 {
            Err(Errno::EINVAL)
        } else {
            Ok(o as int)
        },
        Seek::Cur(o) => add_outcome(pos, o as int),
        Seek::End(o) => add_outcome(size, o as int),
    }
}

/// Turns a modelled outcome into the value a call returns.
pub open spec fn to_isize(x: Result<int, Errno>) -> Result<isize, Errno> {
    match x {
        Ok(n) => Ok(n as isize),
        Err(e) => Err(e),
    }
}

/// Everything a positioned read leaves behind, computed from the cursor,
/// the contents, the requested offset and the buffer it fills: the call's
/// result, the buffer afterwards, and the cursor afterwards.
///
/// The save, seek, read, restore sequence fails before touching anything
/// when the requested offset is negative. From a negative saved cursor the
/// read itself happens, but the final restoring seek fails and that failure
/// is what the call reports.
pub open spec fn pread_outcome(pos: int, contents: Seq<u8>, offset: int, buf: Seq<u8>) -> (
    Result<int, Errno>,
    Seq<u8>,
    int,
) {
    if offset < 0 {
        (Err(Errno::EINVAL), buf, pos)
    } else if pos < 0 {
        (
            Err(Errno::EINVAL),
            read_result(contents, offset, buf),
            offset + read_count(contents, offset, buf.len() as int),
        )
    } else {
        (Ok(read_count(contents, offset, buf.len() as int)), read_result(contents, offset, buf), pos)
    }
}

/// Everything a positioned write leaves behind: the call's result, the file
/// contents afterwards, and the cursor afterwards. Mirrors
/// [`pread_outcome`], with the write's own overflow failure kept when the
/// restoring seek succeeds.
pub open spec fn pwrite_outcome(pos: int, contents: Seq<u8>, offset: int, data: Seq<u8>) -> (
    Result<int, Errno>,
    Seq<u8>,
    int,
) {
    if offset < 0 {
        (Err(Errno::EINVAL), contents, pos)
    } else if offset + data.len() > isize::MAX as int {
        if pos < 0 {
            (Err(Errno::EINVAL), contents, offset)
        } else {
            (Err(Errno::EOVERFLOW), contents, pos)
        }
    } else {
        if pos < 0 {
            (Err(Errno::EINVAL), write_result(contents, offset, data), offset + data.len())
        } else {
            (Ok(data.len() as int), write_result(contents, offset, data), pos)
        }
    }
}

/// A regular file's open instance: the shared metadata and a signed cursor
/// position, moved by reads, writes and seeks.
pub struct RegularFile {
    /// The shared open-instance metadata.
    pub metadata: FileMeta,
    /// The cursor, mutated only under the position-lock discipline:
    /// replaced only once a new value has been fully validated.
    pub pos: isize,
}

impl RegularFile {
    /// The cursor position.
    pub open spec fn pos_spec(&self) -> int {
        self.pos as int
    }

    /// View of the backing inode.
    pub open spec fn inode_view(&self) -> InodeView {
        self.metadata.inode.unwrap()@
    }

    /// The backing inode's size in bytes.
    pub open spec fn size_spec(&self) -> int {
        self.inode_view().bytes.len() as int
    }

    /// Opens a regular file over the given metadata, with the cursor at
    /// position 0.
    pub fn new(metadata: FileMeta) -> (r: RegularFile)
        ensures
            r.metadata == metadata,
            r.meta_view() == metadata@,
            r.pos_spec() == 0,
    {
        RegularFile { metadata, pos: 0 }
    }
}

impl File for RegularFile {
    /// A regular file is backed by a well-formed inode.
    open spec fn valid(&self) -> bool {
        match self.metadata.inode {
            Some(ind) => ind.wf(),
            None => false,
        }
    }

    open spec fn meta_view(&self) -> MetaView {
        self.metadata@
    }

    /// A drain of a regular file delivers the inode's whole contents.
    open spec fn file_bytes(&self) -> Seq<u8> {
        self.inode_view().bytes
    }

    /// What lies between the cursor and the end of the file.
    open spec fn drain_rest(&self) -> Seq<u8> {
        if 0 <= self.pos_spec() && self.pos_spec() < self.size_spec() {
            self.inode_view().bytes.skip(self.pos_spec())
        } else {
            Seq::empty()
        }
    }

    fn metadata(&self) -> (r: &FileMeta) {
        &self.metadata
    }

    /// Reads at the cursor and advances it by the bytes actually read; a
    /// cursor left negative by an earlier relative seek is rejected as an
    /// invalid offset by the inode layer.
    fn read(&mut self, buf: &mut Vec<u8>) -> (r: Result<isize, Errno>)
        ensures
            final(self).meta_view() == old(self).meta_view(),
            old(self).pos_spec() < 0 ==> {
                &&& r == Err::<isize, Errno>(Errno::EINVAL)
                &&& final(self).pos_spec() == old(self).pos_spec()
                &&& final(buf)@ == old(buf)@
            },
            old(self).pos_spec() >= 0 ==> {
                let n = read_count(
                    old(self).inode_view().bytes,
                    old(self).pos_spec(),
                    old(buf)@.len() as int,
                );
                &&& r == Ok::<isize, Errno>(n as isize)
                &&& final(self).pos_spec() == old(self).pos_spec() + n
                &&& final(buf)@ == read_result(
                    old(self).inode_view().bytes,
                    old(self).pos_spec(),
                    old(buf)@,
                )
            },
    {
        let count = match self.metadata.inode.as_ref() {
            Some(ind) => match ind.read(buf, self.pos) {
                Ok(c) => c,
                Err(e) => {
                    return Err(e);
                },
            },
            None => {
                return Err(Errno::EOPNOTSUPP);
            },
        };
        proof {
            let contents: Seq<u8> = old(self).inode_view().bytes;
            let n: int = read_count(contents, old(self).pos_spec(), old(buf)@.len() as int);
            assert(0 <= n <= isize::MAX as int);
            assert(n > 0 ==> old(self).pos_spec() + n <= contents.len());
        }
        self.pos = self.pos + count;
        proof {
            let n: int = count as int;
            assert(self.size_spec() == old(self).size_spec());
            assert(n <= old(self).drain_rest().len());
            assert(buf@.subrange(0, n) =~= old(self).drain_rest().take(n));
            assert(self.drain_rest() =~= old(self).drain_rest().skip(n));
        }
        Ok(count)
    }

    /// Writes at the cursor and advances it by the bytes written.
    fn write(&mut self, buf: &Vec<u8>) -> (r: Result<isize, Errno>)
        ensures
            final(self).meta_view().flags == old(self).meta_view().flags,
            old(self).pos_spec() < 0 ==> {
                &&& r == Err::<isize, Errno>(Errno::EINVAL)
                &&& final(self).pos_spec() == old(self).pos_spec()
                &&& final(self).meta_view() == old(self).meta_view()
            },
            old(self).pos_spec() >= 0 && old(self).pos_spec() + buf@.len() > isize::MAX as int
                ==> {
                &&& r == Err::<isize, Errno>(Errno::EOVERFLOW)
                &&& final(self).pos_spec() == old(self).pos_spec()
                &&& final(self).meta_view() == old(self).meta_view()
            },
            old(self).pos_spec() >= 0 && old(self).pos_spec() + buf@.len() <= isize::MAX as int
                ==> {
                &&& r == Ok::<isize, Errno>(buf@.len() as isize)
                &&& final(self).pos_spec() == old(self).pos_spec() + buf@.len()
                &&& final(self).inode_view() == old(self).inode_view().with_bytes(
                    write_result(old(self).inode_view().bytes, old(self).pos_spec(), buf@),
                )
            },
    {
        let count = match &mut self.metadata.inode {
            Some(ind) => match ind.write(buf, self.pos) {
                Ok(c) => c,
                Err(e) => {
                    return Err(e);
                },
            },
            None => {
                return Err(Errno::EOPNOTSUPP);
            },
        };
        self.pos = self.pos + count;
        Ok(count)
    }

    /// Truncates the backing inode; the cursor is not moved by a
    /// truncation.
    fn truncate(&mut self, size: isize) -> (r: Result<(), Errno>)
        ensures
            final(self).pos_spec() == old(self).pos_spec(),
            final(self).meta_view().flags == old(self).meta_view().flags,
            size < 0 ==> {
                &&& r == Err::<(), Errno>(Errno::EINVAL)
                &&& final(self).meta_view() == old(self).meta_view()
            },
            size >= 0 ==> {
                &&& r == Ok::<(), Errno>(())
                &&& final(self).inode_view() == old(self).inode_view().with_bytes(
                    truncate_result(old(self).inode_view().bytes, size as int),
                )
            },
    {
        match &mut self.metadata.inode {
            Some(ind) => match ind.truncate(size) {
                Ok(()) => Ok(()),
                Err(e) => Err(e),
            },
            None => Err(Errno::EOPNOTSUPP),
        }
    }

    /// Flushes the backing inode; the open-instance state is untouched.
    fn sync(&mut self) -> (r: Result<(), Errno>)
        ensures
            r == Ok::<(), Errno>(()),
            *final(self) == *old(self),
    {
        match &self.metadata.inode {
            Some(ind) => match ind.sync() {
                Ok(()) => Ok(()),
                Err(e) => Err(e),
            },
            None => Err(Errno::EOPNOTSUPP),
        }
    }

    /// Computes the new position from the seek descriptor under the
    /// position lock discipline: the stored cursor is replaced only after
    /// the new value is fully validated, so a failing seek leaves the prior
    /// position untouched.
    fn seek(&mut self, s: Seek) -> (r: Result<isize, Errno>)
        ensures
            final(self).meta_view() == old(self).meta_view(),
            seek_outcome(old(self).pos_spec(), old(self).size_spec(), s) matches Ok(p) ==> {
                &&& r == Ok::<isize, Errno>(p as isize)
                &&& final(self).pos_spec() == p
            },
            seek_outcome(old(self).pos_spec(), old(self).size_spec(), s) matches Err(e) ==> {
                &&& r == Err::<isize, Errno>(e)
                &&& *final(self) == *old(self)
            },
    {
        let new_pos: isize = match s {
            Seek::Start(offset) => {
                if offset < 0 {
                    return Err(Errno::EINVAL);
                }
                offset
            },
            Seek::Cur(offset) => {
                match self.pos.checked_add(offset) {
                    Some(np) => np,
                    None => {
                        return Err(
                            if offset < 0 {
                                Errno::EINVAL
                            } else {
                                Errno::EOVERFLOW
                            },
                        );
                    },
                }
            },
            Seek::End(offset) => {
                let size = match self.metadata.inode.as_ref() {
                    Some(ind) => ind.size_bytes(),
                    None => {
                        return Err(Errno::EOPNOTSUPP);
                    },
                };
                match size.checked_add(offset) {
                    Some(np) => np,
                    None => {
                        return Err(
                            if offset < 0 {
                                Errno::EINVAL
                            } else {
                                Errno::EOVERFLOW
                            },
                        );
                    },
                }
            },
        };
        self.pos = new_pos;
        proof {
            assert(self.inode_view().bytes.skip(0) =~= self.inode_view().bytes);
            assert(self.size_spec() == 0 ==> self.inode_view().bytes =~= Seq::<u8>::empty());
        }
        Ok(new_pos)
    }

    /// Positioned read: under the positioned-I/O exclusion discipline,
    /// saves the cursor with a relative seek of zero, seeks to the
    /// requested offset, reads, and seeks back before returning, whether or
    /// not the read succeeded.
    fn pread(&mut self, buf: &mut Vec<u8>, offset: isize) -> (r: Result<isize, Errno>)
        ensures
            final(self).meta_view() == old(self).meta_view(),
            ({
                let o = pread_outcome(
                    old(self).pos_spec(),
                    old(self).inode_view().bytes,
                    offset as int,
                    old(buf)@,
                );
                &&& r == to_isize(o.0)
                &&& final(buf)@ == o.1
                &&& final(self).pos_spec() == o.2
            }),
    {
        let saved = match self.seek(Seek::Cur(0)) {
            Ok(p) => p,
            Err(e) => {
                return Err(e);
            },
        };
        match self.seek(Seek::Start(offset)) {
            Ok(_) => {},
            Err(e) => {
                return Err(e);
            },
        }
        let ret = self.read(buf);
        match self.seek(Seek::Start(saved)) {
            Ok(_) => {},
            Err(e) => {
                return Err(e);
            },
        }
        ret
    }

    /// Positioned write: the same save, seek, write, restore sequence as
    /// [`Self::pread`].
    fn pwrite(&mut self, buf: &Vec<u8>, offset: isize) -> (r: Result<isize, Errno>)
        ensures
            final(self).meta_view().flags == old(self).meta_view().flags,
            ({
                let o = pwrite_outcome(
                    old(self).pos_spec(),
                    old(self).inode_view().bytes,
                    offset as int,
                    buf@,
                );
                &&& r == to_isize(o.0)
                &&& final(self).inode_view() == old(self).inode_view().with_bytes(o.1)
                &&& final(self).pos_spec() == o.2
            }),
    {
        let saved = match self.seek(Seek::Cur(0)) {
            Ok(p) => p,
            Err(e) => {
                return Err(e);
            },
        };
        match self.seek(Seek::Start(offset)) {
            Ok(_) => {},
            Err(e) => {
                return Err(e);
            },
        }
        let ret = self.write(buf);
        match self.seek(Seek::Start(saved)) {
            Ok(_) => {},
            Err(e) => {
                return Err(e);
            },
        }
        ret
    }
}

/// Seeking to a valid absolute offset and then asking for the current
/// position (a relative seek of zero) reports exactly that offset, whatever
/// position and size the file had.
pub proof fn lemma_seek_start_then_cur(pos: int, size: int, o: int)
    requires
        0 <= o <= isize::MAX as int,
    ensures
        seek_outcome(pos, size, Seek::Start(o as isize)) == Ok::<int, Errno>(o),
        seek_outcome(o, size, Seek::Cur(0)) == Ok::<int, Errno>(o),
{
}

/// A negative absolute seek always fails as an invalid argument; the seek
/// contract then leaves the prior position untouched.
pub proof fn lemma_seek_negative_start(pos: int, size: int, o: int)
    requires
        isize::MIN as int <= o < 0,
    ensures
        seek_outcome(pos, size, Seek::Start(o as isize)) == Err::<int, Errno>(Errno::EINVAL),
{
}

/// A forward relative seek from the maximum representable position fails
/// with a numeric overflow.
pub proof fn lemma_seek_cur_overflow(size: int, o: int)
    requires
        0 < o <= isize::MAX as int,
    ensures
        seek_outcome(isize::MAX as int, size, Seek::Cur(o as isize)) == Err::<int, Errno>(
            Errno::EOVERFLOW,
        ),
{
}

/// A backward relative seek that would land below the smallest
/// representable position fails as an invalid argument.
pub proof fn lemma_seek_cur_underflow(pos: int, size: int, o: int)
    requires
        isize::MIN as int <= o < 0,
        pos <= isize::MAX as int,
        pos + o < isize::MIN as int,
    ensures
        seek_outcome(pos, size, Seek::Cur(o as isize)) == Err::<int, Errno>(Errno::EINVAL),
{
}

/// A positioned write from a non-negative cursor puts the cursor back where
/// it was, whether the write succeeded or failed, so a relative seek of
/// zero right after reports the position held before the positioned write.
pub proof fn lemma_pwrite_restores_cursor(pos: int, contents: Seq<u8>, offset: int, data: Seq<u8>)
    requires
        0 <= pos <= isize::MAX as int,
    ensures
        pwrite_outcome(pos, contents, offset, data).2 == pos,
        seek_outcome(
            pos,
            pwrite_outcome(pos, contents, offset, data).1.len() as int,
            Seek::Cur(0),
        ) == Ok::<int, Errno>(pos),
{
}

/// Positioned reads on one open instance are isolated from one another:
/// each leaves the instance exactly as it found it, so a positioned read
/// that runs after another observes the same state, and returns the same
/// result, as if it had run first.
pub proof fn lemma_pread_exclusion(
    pos: int,
    contents: Seq<u8>,
    a: int,
    buf_a: Seq<u8>,
    b: int,
    buf_b: Seq<u8>,
)
    requires
        0 <= pos,
    ensures
        pread_outcome(pos, contents, a, buf_a).2 == pos,
        pread_outcome(pread_outcome(pos, contents, a, buf_a).2, contents, b, buf_b)
            == pread_outcome(pos, contents, b, buf_b),
{
}

} // verus!
