use vstd::prelude::*;

use crate::errno::Errno;

verus! {

/// Caller-identity context threaded through directory lookups.
///
/// Permission and audit checking is performed by an outside layer during
/// traversal; this core only passes the context along, so it carries no state
/// that this layer reads.
pub struct Audit {}

/// Mathematical view of an [`Inode`].
#[verifier::ext_equal]
pub ghost struct InodeView {
    pub ino: u64,
    pub bytes: Seq<u8>,
    pub unlinked: bool,
    pub parent: Option<u64>,
    pub children: Seq<u64>,
    pub ioctl_result: i32,
}

impl InodeView {
    /// The same inode with its byte contents replaced.
    pub open spec fn with_bytes(self, bytes: Seq<u8>) -> InodeView {
        InodeView { bytes, ..self }
    }
}

/// In-memory model of the storage layer's inode interface: the identity,
/// metadata and byte-addressable contents of a file, independent of any
/// particular open instance.
///
/// The real storage layer is an outside collaborator; this model holds as
/// plain values exactly what the file-description layer reads and writes
/// through that interface: byte contents, a size, an unlink mark, a parent
/// back-reference that may already be gone, the children in enumeration
/// order, and the result code its device answers to control requests.
pub struct Inode {
    /// Inode number: the identity handed back by directory enumeration.
    pub ino: u64,
    /// Byte contents; their length is the inode's size.
    pub bytes: Vec<u8>,
    /// True once the inode has been unlinked from its directory tree.
    pub unlinked: bool,
    /// Inode number of the parent directory, if a live back-reference
    /// exists. `None` stands both for "no parent" and for a weak reference
    /// that has expired.
    pub parent: Option<u64>,
    /// Inode numbers of the children, in enumeration order.
    pub children: Vec<u64>,
    /// Result code the device behind this inode answers to every control
    /// request.
    pub ioctl_result: i32,
}

impl View for Inode {
    type V = InodeView;

    open spec fn view(&self) -> InodeView {
        InodeView {
            ino: self.ino,
            bytes: self.bytes@,
            unlinked: self.unlinked,
            parent: self.parent,
            children: self.children@,
            ioctl_result: self.ioctl_result,
        }
    }
}

/// A sequence of `n` zero bytes.
pub open spec fn zeros(n: int) -> Seq<u8> {
    Seq::new(n as nat, |i: int| 0u8)
}

/// How many bytes a read of `len` bytes at `offset` transfers: everything
/// asked for, clamped to what the contents still hold past `offset`.
pub open spec fn read_count(contents: Seq<u8>, offset: int, len: int) -> int {
    if offset >= contents.len() {
        0
    } else if len <= contents.len() - offset {
        len
    } else {
        contents.len() - offset
    }
}

/// The buffer after a read at `offset`: the transferred bytes, followed by
/// the untouched remainder of the buffer.
pub open spec fn read_result(contents: Seq<u8>, offset: int, buf: Seq<u8>) -> Seq<u8> {
    Seq::new(
        buf.len(),
        |m: int|
            if m < read_count(contents, offset, buf.len() as int) {
                contents[offset + m]
            } else {
                buf[m]
            },
    )
}

/// The contents up to `offset`, zero-filled if `offset` lies past the end.
pub open spec fn write_front(contents: Seq<u8>, offset: int) -> Seq<u8> {
    if offset <= contents.len() {
        contents.take(offset)
    } else {
        contents + zeros(offset - contents.len())
    }
}

/// The contents after `data` is written at `offset`: the front up to
/// `offset` (zero-filled past the end), the data, then whatever old contents
/// lie beyond the written range.
pub open spec fn write_result(contents: Seq<u8>, offset: int, data: Seq<u8>) -> Seq<u8> {
    let tail = if offset + data.len() < contents.len() {
        contents.skip(offset + data.len())
    } else {
        Seq::empty()
    };
    write_front(contents, offset) + data + tail
}

/// The contents after the file is truncated to `size` bytes: cut short, or
/// zero-filled out to the new size.
pub open spec fn truncate_result(contents: Seq<u8>, size: int) -> Seq<u8> {
    if size <= contents.len() {
        contents.take(size)
    } else {
        contents + zeros(size - contents.len())
    }
}

impl Inode {
    /// Byte positions and sizes travel as `isize`, and enumeration indices
    /// as `usize` two past the child index, so the model keeps both within
    /// range.
    pub open spec fn wf(&self) -> bool {
        &&& self.bytes@.len() <= isize::MAX as int
        &&& self.children@.len() + 2 <= usize::MAX as int
    }

    /// The inode's current size in bytes.
    pub fn size_bytes(&self) -> (r: isize)
        requires
            self.wf(),
        ensures
            r as int == self@.bytes.len(),
    {
        self.bytes.len() as isize
    }

    /// Reads into `buf` at the given byte offset, returning how many bytes
    /// were transferred: everything the buffer can hold, clamped to what the
    /// contents still hold past `offset`. A negative offset is rejected.
    #[verifier::loop_isolation(false)]
    pub fn read(&self, buf: &mut Vec<u8>, offset: isize) -> (r: Result<isize, Errno>)
        requires
            self.wf(),
        ensures
            offset < 0 ==> r == Err::<isize, Errno>(Errno::EINVAL) && final(buf)@ == old(buf)@,
            offset >= 0 ==> {
                &&& r == Ok::<isize, Errno>(
                    read_count(self@.bytes, offset as int, old(buf)@.len() as int) as isize,
                )
                &&& final(buf)@ == read_result(self@.bytes, offset as int, old(buf)@)
            },
    {
        if offset < 0 {
            return Err(Errno::EINVAL);
        }
        let off = offset as usize;
        let len = buf.len();
        let n: usize = if off >= self.bytes.len() {
            0
        } else if len <= self.bytes.len() - off {
            len
        } else {
            self.bytes.len() - off
        };
        let mut i: usize = 0;
        while i < n
            invariant
                i <= n,
                buf@.len() == len,
                forall|m: int| 0 <= m < i ==> buf@[m] == self@.bytes[off + m],
                forall|m: int| i <= m < len ==> buf@[m] == old(buf)@[m],
            decreases n - i,
        {
            let b = self.bytes[off + i];
            buf[i] = b;
            i += 1;
        }
        proof {
            assert(buf@ =~= read_result(self@.bytes, offset as int, old(buf)@));
        }
        Ok(n as isize)
    }

    /// Writes the whole buffer at the given byte offset, zero-filling any gap
    /// between the old end of the contents and `offset`, and returns how many
    /// bytes were written. A negative offset is rejected, and a write whose
    /// end would lie beyond the largest representable position fails with a
    /// numeric-overflow error.
    #[verifier::loop_isolation(false)]
    #[verifier::rlimit(30)]
    pub fn write(&mut self, buf: &Vec<u8>, offset: isize) -> (r: Result<isize, Errno>)
        requires
            old(self).wf(),
        ensures
            final(self).wf(),
            offset < 0 ==> r == Err::<isize, Errno>(Errno::EINVAL) && final(self)@ == old(self)@,
            offset >= 0 && offset + buf@.len() > isize::MAX as int ==> r == Err::<isize, Errno>(
                Errno::EOVERFLOW,
            ) && final(self)@ == old(self)@,
            offset >= 0 && offset + buf@.len() <= isize::MAX as int ==> {
                &&& r == Ok::<isize, Errno>(buf@.len() as isize)
                &&& final(self)@ == old(self)@.with_bytes(
                    write_result(old(self)@.bytes, offset as int, buf@),
                )
            },
    {
        if offset < 0 {
            return Err(Errno::EINVAL);
        }
        let off = offset as usize;
        let max = isize::MAX as usize;
        if buf.len() > max - off {
            return Err(Errno::EOVERFLOW);
        }
        let flen: usize = if off <= self.bytes.len() {
            off
        } else {
            self.bytes.len()
        };
        let mut out: Vec<u8> = Vec::new();
        let mut i: usize = 0;
        while i < flen
            invariant
                i <= flen,
                flen <= self.bytes@.len(),
                out@ == self@.bytes.subrange(0, i as int),
            decreases flen - i,
        {
            out.push(self.bytes[i]);
            i += 1;
            proof {
                assert(out@ =~= self@.bytes.subrange(0, i as int));
            }
        }
        while out.len() < off
            invariant
                flen as int == if off <= self.bytes@.len() {
                    off as int
                } else {
                    self.bytes@.len() as int
                },
                flen <= out@.len(),
                out@.len() <= off,
                out@ == self@.bytes.subrange(0, flen as int) + zeros(out@.len() - flen),
            decreases off - out.len(),
        {
            out.push(0u8);
            proof {
                assert(out@ =~= self@.bytes.subrange(0, flen as int) + zeros(
                    out@.len() - flen,
                ));
            }
        }
        proof {
            assert(out@ =~= write_front(self@.bytes, off as int));
        }
        let mut j: usize = 0;
        while j < buf.len()
            invariant
                j <= buf@.len(),
                out@ == write_front(self@.bytes, off as int) + buf@.subrange(0, j as int),
            decreases buf.len() - j,
        {
            out.push(buf[j]);
            j += 1;
            proof {
                assert(out@ =~= write_front(self@.bytes, off as int) + buf@.subrange(
                    0,
                    j as int,
                ));
            }
        }
        proof {
            assert(out@ =~= write_front(self@.bytes, off as int) + buf@);
        }
        let mut k: usize = off + buf.len();
        while k < self.bytes.len()
            invariant
                off + buf@.len() <= k,
                k <= self.bytes@.len() || k == off + buf@.len(),
                out@ == write_front(self@.bytes, off as int) + buf@ + (if k
                    <= self.bytes@.len() {
                    self@.bytes.subrange(off + buf@.len(), k as int)
                } else {
                    Seq::<u8>::empty()
                }),
            decreases self.bytes.len() - k,
        {
            out.push(self.bytes[k]);
            k += 1;
            proof {
                assert(out@ =~= write_front(self@.bytes, off as int) + buf@
                    + self@.bytes.subrange(off + buf@.len(), k as int));
            }
        }
        proof {
            assert(out@ =~= write_result(self@.bytes, off as int, buf@));
        }
        self.bytes = out;
        proof {
            assert(self@ =~= old(self)@.with_bytes(
                write_result(old(self)@.bytes, offset as int, buf@),
            ));
        }
        Ok(buf.len() as isize)
    }

    /// Truncates the contents to `size` bytes, zero-filling if the file
    /// grows. A negative size is rejected.
    #[verifier::loop_isolation(false)]
    pub fn truncate(&mut self, size: isize) -> (r: Result<(), Errno>)
        requires
            old(self).wf(),
        ensures
            final(self).wf(),
            size < 0 ==> r == Err::<(), Errno>(Errno::EINVAL) && final(self)@ == old(self)@,
            size >= 0 ==> r == Ok::<(), Errno>(()) && final(self)@ == old(self)@.with_bytes(
                truncate_result(old(self)@.bytes, size as int),
            ),
    {
        if size < 0 {
            return Err(Errno::EINVAL);
        }
        let target = size as usize;
        if target <= self.bytes.len() {
            self.bytes.truncate(target);
            proof {
                assert(self@ =~= old(self)@.with_bytes(
                    truncate_result(old(self)@.bytes, size as int),
                ));
            }
        } else {
            proof {
                assert(self@ =~= old(self)@.with_bytes(
                    old(self)@.bytes + zeros(self.bytes@.len() - old(self)@.bytes.len()),
                ));
            }
            while self.bytes.len() < target
                invariant
                    target <= isize::MAX as usize,
                    old(self)@.bytes.len() <= self.bytes@.len() <= target as int,
                    self@ == old(self)@.with_bytes(
                        old(self)@.bytes + zeros(self.bytes@.len() - old(self)@.bytes.len()),
                    ),
                decreases target - self.bytes.len(),
            {
                self.bytes.push(0u8);
                proof {
                    assert(self@ =~= old(self)@.with_bytes(
                        old(self)@.bytes + zeros(self.bytes@.len() - old(self)@.bytes.len()),
                    ));
                }
            }
            proof {
                assert(self@ =~= old(self)@.with_bytes(
                    truncate_result(old(self)@.bytes, size as int),
                ));
            }
        }
        Ok(())
    }

    /// Flushes the inode to storage. The in-memory model is always in sync,
    /// so this changes nothing and always succeeds.
    pub fn sync(&self) -> (r: Result<(), Errno>)
        ensures
            r == Ok::<(), Errno>(()),
    {
        Ok(())
    }

    /// Forwards a control request to the device behind this inode, which
    /// answers every request with its fixed result code.
    pub fn ioctl(
        &self,
        _request: usize,
        _arg2: usize,
        _arg3: usize,
        _arg4: usize,
        _arg5: usize,
    ) -> (r: Result<i32, Errno>)
        ensures
            r == Ok::<i32, Errno>(self@.ioctl_result),
    {
        Ok(self.ioctl_result)
    }

    /// Looks up the child at the given enumeration index, reporting
    /// no-such-entry exactly when the index lies past the last child. The
    /// audit context is passed through for the outside permission layer.
    pub fn lookup_idx(&self, idx: usize, _audit: &Audit) -> (r: Result<u64, Errno>)
        ensures
            idx < self@.children.len() ==> r == Ok::<u64, Errno>(self@.children[idx as int]),
            idx >= self@.children.len() ==> r == Err::<u64, Errno>(Errno::ENOENT),
    {
        if idx < self.children.len() {
            Ok(self.children[idx])
        } else {
            Err(Errno::ENOENT)
        }
    }
}

} // verus!
