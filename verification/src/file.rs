use vstd::prelude::*;

use crate::errno::Errno;
use crate::inode::Inode;
use crate::inode::InodeView;

verus! {

/// Size of the scratch chunk the whole-file drain reads into: one memory
/// page.
pub const PAGE_SIZE: usize = 4096;

/// Identifies a suspended task that a readiness event should wake. The
/// scheduler that owns the task lives outside this core; the handle only
/// travels through it.
#[derive(Clone, Copy, Debug, PartialEq, Eq, Structural)]
pub struct WakeHandle {
    /// The task to wake.
    pub task: u64,
}

/// Mathematical view of a [`FileMeta`].
#[verifier::ext_equal]
pub ghost struct MetaView {
    pub inode: Option<InodeView>,
    pub flags: u32,
}

/// The open-instance metadata shared by every variant of a file
/// description: the optional backing inode and the open-flags value.
///
/// The inode reference, once set at construction, never changes identity;
/// only the flags may mutate over the life of the open instance.
pub struct FileMeta {
    /// The backing inode; absent for files that are not inode-backed, such
    /// as sockets, which live outside this core.
    pub inode: Option<Inode>,
    /// The open-flags value recorded when the file was opened.
    pub flags: u32,
}

impl View for FileMeta {
    type V = MetaView;

    open spec fn view(&self) -> MetaView {
        MetaView {
            inode: match self.inode {
                Some(ind) => Some(ind@),
                None => None,
            },
            flags: self.flags,
        }
    }
}

impl FileMeta {
    /// Bundles a backing inode and an open-flags value into the metadata of
    /// a fresh open instance.
    pub fn new(inode: Option<Inode>, flags: u32) -> (r: FileMeta)
        ensures
            r.inode == inode,
            r.flags == flags,
    {
        FileMeta { inode, flags }
    }
}

/// Offset interpretation for a seek request, as in the POSIX lseek
/// interface.
#[derive(Clone, Copy, Debug, PartialEq, Eq, Structural)]
pub enum Seek {
    /// The file offset is set to `offset` bytes.
    Start(isize),
    /// The file offset is set to its current location plus `offset` bytes.
    Cur(isize),
    /// The file offset is set to the size of the file plus `offset` bytes.
    End(isize),
}

impl Seek {
    /// Parses a raw (whence, offset) pair from the syscall boundary; whence
    /// codes outside 0, 1, 2 are invalid arguments.
    pub fn try_from(raw: (i32, isize)) -> (r: Result<Seek, Errno>)
        ensures
            raw.0 == 0 ==> r == Ok::<Seek, Errno>(Seek::Start(raw.1)),
            raw.0 == 1 ==> r == Ok::<Seek, Errno>(Seek::Cur(raw.1)),
            raw.0 == 2 ==> r == Ok::<Seek, Errno>(Seek::End(raw.1)),
            raw.0 != 0 && raw.0 != 1 && raw.0 != 2 ==> r == Err::<Seek, Errno>(Errno::EINVAL),
    {
        match raw.0 {
            0 => Ok(Seek::Start(raw.1)),
            1 => Ok(Seek::Cur(raw.1)),
            2 => Ok(Seek::End(raw.1)),
            _ => Err(Errno::EINVAL),
        }
    }
}

/// A page-sized scratch buffer of zero bytes for the whole-file drain.
#[verifier::loop_isolation(false)]
fn zero_chunk() -> (v: Vec<u8>)
    ensures
        v@.len() == PAGE_SIZE as int,
{
    let mut v: Vec<u8> = Vec::new();
    let mut i: usize = 0;
    while i < PAGE_SIZE
        invariant
            i <= PAGE_SIZE,
            v@.len() == i as int,
        decreases PAGE_SIZE - i,
    {
        v.push(0u8);
        i += 1;
    }
    v
}

/// Every operation a file description may support. Each optional operation
/// has a default body that denies the capability with a fixed error, so a
/// variant overrides exactly the operations it implements.
///
/// `valid` is the variant's own well-formedness condition on the
/// open-instance state; every operation preserves it.
pub trait File: Sized {
    /// Well-formedness of this open instance's state.
    spec fn valid(&self) -> bool;

    /// Model view of the shared open-instance metadata.
    spec fn meta_view(&self) -> MetaView;

    /// The byte contents a whole-file drain of this instance delivers.
    /// Variants that do not support draining reads leave it empty.
    spec fn file_bytes(&self) -> Seq<u8>;

    /// What a draining read can still deliver from the current cursor: a
    /// suffix of [`File::file_bytes`], all of it right after a rewinding
    /// seek, and less after every successful read.
    spec fn drain_rest(&self) -> Seq<u8>;

    /// The shared open-instance metadata.
    fn metadata(&self) -> (r: &FileMeta)
        ensures
            r@ == self.meta_view(),
    ;

    /// Reinterprets this file as a socket. Only socket-backed files, which
    /// live outside this core, support it.
    fn as_socket(&self) -> (r: Result<(), Errno>)
        default_ensures
            r == Err::<(), Errno>(Errno::ENOTSOCK),
    {
        Err(Errno::ENOTSOCK)
    }

    /// Reads from the file at its cursor into `buf`, advancing the cursor
    /// by the number of bytes read.
    fn read(&mut self, buf: &mut Vec<u8>) -> (r: Result<isize, Errno>)
        requires
            old(self).valid(),
        ensures
            final(self).valid(),
            final(buf)@.len() == old(buf)@.len(),
            final(self).file_bytes() == old(self).file_bytes(),
            r matches Ok(n) ==> {
                &&& 0 <= n
                &&& n as int <= old(buf)@.len()
                &&& n as int <= old(self).drain_rest().len()
                &&& final(buf)@.subrange(0, n as int) == old(self).drain_rest().take(n as int)
                &&& final(self).drain_rest() == old(self).drain_rest().skip(n as int)
                &&& n == 0 && old(buf)@.len() > 0 ==> old(self).drain_rest().len() == 0
            },
        default_ensures
            *final(self) == *old(self),
            final(buf)@ == old(buf)@,
            r == Err::<isize, Errno>(Errno::EOPNOTSUPP),
    {
        Err(Errno::EOPNOTSUPP)
    }

    /// Writes `buf` to the file at its cursor, advancing the cursor by the
    /// number of bytes written.
    fn write(&mut self, buf: &Vec<u8>) -> (r: Result<isize, Errno>)
        requires
            old(self).valid(),
        ensures
            final(self).valid(),
            r matches Ok(n) ==> 0 <= n && n as int <= buf@.len(),
        default_ensures
            *final(self) == *old(self),
            r == Err::<isize, Errno>(Errno::EOPNOTSUPP),
    {
        Err(Errno::EOPNOTSUPP)
    }

    /// Truncates the file to `size` bytes; the cursor is not moved.
    fn truncate(&mut self, size: isize) -> (r: Result<(), Errno>)
        requires
            old(self).valid(),
        ensures
            final(self).valid(),
        default_ensures
            *final(self) == *old(self),
            r == Err::<(), Errno>(Errno::EOPNOTSUPP),
    {
        Err(Errno::EOPNOTSUPP)
    }

    /// Flushes the file to storage.
    fn sync(&mut self) -> (r: Result<(), Errno>)
        requires
            old(self).valid(),
        ensures
            final(self).valid(),
        default_ensures
            *final(self) == *old(self),
            r == Err::<(), Errno>(Errno::EOPNOTSUPP),
    {
        Err(Errno::EOPNOTSUPP)
    }

    /// Moves the cursor as the seek descriptor asks and returns the new
    /// position.
    fn seek(&mut self, s: Seek) -> (r: Result<isize, Errno>)
        requires
            old(self).valid(),
        ensures
            final(self).valid(),
            r is Ok && s == Seek::Start(0isize) ==> {
                &&& final(self).drain_rest() == final(self).file_bytes()
                &&& final(self).file_bytes() == old(self).file_bytes()
            },
        default_ensures
            *final(self) == *old(self),
            r == Err::<isize, Errno>(Errno::EOPNOTSUPP),
    {
        Err(Errno::EOPNOTSUPP)
    }

    /// Forwards a device control request. Only character devices are
    /// terminals; everything else answers not-a-tty.
    fn ioctl(
        &self,
        request: usize,
        arg2: usize,
        arg3: usize,
        arg4: usize,
        arg5: usize,
    ) -> (r: Result<i32, Errno>)
        requires
            self.valid(),
        default_ensures
            r == Err::<i32, Errno>(Errno::ENOTTY),
    {
        Err(Errno::ENOTTY)
    }

    /// Reads at an explicit offset without permanently moving the cursor.
    fn pread(&mut self, buf: &mut Vec<u8>, offset: isize) -> (r: Result<isize, Errno>)
        requires
            old(self).valid(),
        ensures
            final(self).valid(),
            final(buf)@.len() == old(buf)@.len(),
            r matches Ok(n) ==> 0 <= n && n as int <= old(buf)@.len(),
        default_ensures
            *final(self) == *old(self),
            final(buf)@ == old(buf)@,
            r == Err::<isize, Errno>(Errno::EOPNOTSUPP),
    {
        Err(Errno::EOPNOTSUPP)
    }

    /// Writes at an explicit offset without permanently moving the cursor.
    fn pwrite(&mut self, buf: &Vec<u8>, offset: isize) -> (r: Result<isize, Errno>)
        requires
            old(self).valid(),
        ensures
            final(self).valid(),
            r matches Ok(n) ==> 0 <= n && n as int <= buf@.len(),
        default_ensures
            *final(self) == *old(self),
            r == Err::<isize, Errno>(Errno::EOPNOTSUPP),
    {
        Err(Errno::EOPNOTSUPP)
    }

    /// Returns the next directory entry as a pre-advance index paired with
    /// the entry's inode number, or `None` at the end of the directory.
    fn readdir(&mut self) -> (r: Result<Option<(usize, u64)>, Errno>)
        requires
            old(self).valid(),
        ensures
            final(self).valid(),
        default_ensures
            *final(self) == *old(self),
            r == Err::<Option<(usize, u64)>, Errno>(Errno::ENOTDIR),
    {
        Err(Errno::ENOTDIR)
    }

    /// Polls whether the file is ready to read; no current variant ever
    /// blocks, so the default answer is always ready and the wake handle is
    /// never kept.
    fn pollin(&self, _waker: Option<WakeHandle>) -> (r: Result<bool, Errno>)
        default_ensures
            r == Ok::<bool, Errno>(true),
    {
        Ok(true)
    }

    /// Polls whether the file is ready to write; the default answer is
    /// always ready.
    fn pollout(&self, _waker: Option<WakeHandle>) -> (r: Result<bool, Errno>)
        default_ensures
            r == Ok::<bool, Errno>(true),
    {
        Ok(true)
    }

    /// Whole-file drain, built once from the public primitives for any
    /// variant that supports seek and read: seeks to absolute position 0,
    /// then reads page-sized chunks and appends the bytes actually read
    /// until a read returns zero bytes, at which point the whole of the
    /// instance's byte contents has been delivered. The first failing seek
    /// or read is propagated at once.
    #[verifier::loop_isolation(false)]
    fn read_all(&mut self) -> (r: Result<Vec<u8>, Errno>)
        requires
            old(self).valid(),
        ensures
            final(self).valid(),
        default_ensures
            r matches Ok(v) ==> {
                &&& v@ == old(self).file_bytes()
                &&& final(self).file_bytes() == old(self).file_bytes()
                &&& final(self).drain_rest().len() == 0
            },
    {
        match self.seek(Seek::Start(0)) {
            Ok(_) => {},
            Err(e) => {
                return Err(e);
            },
        }
        let mut buf: Vec<u8> = Vec::new();
        proof {
            assert(buf@ + self.drain_rest() =~= old(self).file_bytes());
        }
        loop
            invariant
                self.valid(),
                self.file_bytes() == old(self).file_bytes(),
                buf@ + self.drain_rest() == old(self).file_bytes(),
            decreases self.drain_rest().len(),
        {
            let mut tmp = zero_chunk();
            let ghost pre_rest: Seq<u8> = self.drain_rest();
            let ghost pre_buf: Seq<u8> = buf@;
            let n = match self.read(&mut tmp) {
                Ok(n) => n,
                Err(e) => {
                    return Err(e);
                },
            };
            if n == 0 {
                proof {
                    assert(buf@ =~= old(self).file_bytes());
                }
                break;
            }
            let cnt = n as usize;
            let mut i: usize = 0;
            proof {
                assert(buf@ =~= pre_buf + tmp@.subrange(0, 0));
            }
            while i < cnt
                invariant
                    i <= cnt,
                    cnt <= tmp@.len(),
                    buf@ == pre_buf + tmp@.subrange(0, i as int),
                decreases cnt - i,
            {
                buf.push(tmp[i]);
                i += 1;
                proof {
                    assert(buf@ =~= pre_buf + tmp@.subrange(0, i as int));
                }
            }
            proof {
                assert(buf@ + self.drain_rest() =~= old(self).file_bytes());
            }
        }
        Ok(buf)
    }
}

} // verus!
