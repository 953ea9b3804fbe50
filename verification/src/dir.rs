use vstd::prelude::*;

use crate::errno::Errno;
use crate::file::File;
use crate::file::FileMeta;
use crate::file::MetaView;
use crate::inode::Audit;
use crate::inode::InodeView;

verus! {

/// The parent entry of a directory resolves to the parent inode when a live
/// back-reference exists, and falls back to the directory's own inode when
/// the parent is absent or the weak reference has expired.
pub open spec fn parent_or_self(iv: InodeView) -> u64 {
    match iv.parent {
        Some(p) => p,
        None => iv.ino,
    }
}

/// A directory's open instance: the shared metadata, an unsigned cursor
/// into the virtual enumeration order, and the audit context threaded
/// through child lookups.
///
/// Enumeration order: position 0 is the directory's own entry, position 1
/// its parent entry, and every position `n >= 2` the `(n - 2)`-th child as
/// reported by the inode.
pub struct DirFile {
    /// The shared open-instance metadata.
    pub metadata: FileMeta,
    /// The enumeration cursor, advanced only by a successful enumeration
    /// step.
    pub pos: usize,
    /// Caller-identity context handed to every child lookup.
    pub audit: Audit,
}

impl DirFile {
    /// The enumeration cursor.
    pub open spec fn pos_spec(&self) -> int {
        self.pos as int
    }

    /// View of the backing inode.
    pub open spec fn inode_view(&self) -> InodeView {
        self.metadata.inode.unwrap()@
    }

    /// Opens a directory over the given metadata, with the cursor at the
    /// directory's own entry.
    pub fn new(metadata: FileMeta, audit: Audit) -> (r: DirFile)
        ensures
            r.metadata == metadata,
            r.meta_view() == metadata@,
            r.pos_spec() == 0,
    {
        DirFile { metadata, pos: 0, audit }
    }
}

impl File for DirFile {
    /// A directory is backed by a well-formed inode.
    open spec fn valid(&self) -> bool {
        match self.metadata.inode {
            Some(ind) => ind.wf(),
            None => false,
        }
    }

    open spec fn meta_view(&self) -> MetaView {
        self.metadata@
    }

    /// Directories do not support draining reads.
    open spec fn file_bytes(&self) -> Seq<u8> {
        Seq::empty()
    }

    /// Directories do not support draining reads.
    open spec fn drain_rest(&self) -> Seq<u8> {
        Seq::empty()
    }

    fn metadata(&self) -> (r: &FileMeta) {
        &self.metadata
    }

    /// Reading byte contents from a directory is refused: a directory is
    /// drained through its entries, not its bytes.
    fn read(&mut self, buf: &mut Vec<u8>) -> (r: Result<isize, Errno>)
        ensures
            *final(self) == *old(self),
            final(buf)@ == old(buf)@,
            r == Err::<isize, Errno>(Errno::EISDIR),
    {
        Err(Errno::EISDIR)
    }

    /// One step of the enumeration protocol. An unlinked directory is
    /// rejected outright, whatever the cursor holds. Position 0 yields the
    /// directory's own inode, position 1 the parent entry, and any higher
    /// position the child at the cursor less two; when that lookup reports
    /// no-such-entry, the call answers the non-error end-of-directory
    /// signal and the cursor stays put. A successful step returns the
    /// pre-advance index paired with the entry's inode number and advances
    /// the cursor by one.
    fn readdir(&mut self) -> (r: Result<Option<(usize, u64)>, Errno>)
        ensures
            final(self).meta_view() == old(self).meta_view(),
            old(self).inode_view().unlinked ==> {
                &&& r == Err::<Option<(usize, u64)>, Errno>(Errno::ENOENT)
                &&& final(self).pos_spec() == old(self).pos_spec()
            },
            !old(self).inode_view().unlinked ==> {
                let iv = old(self).inode_view();
                let pos0 = old(self).pos_spec();
                &&& pos0 == 0 ==> {
                    &&& r == Ok::<Option<(usize, u64)>, Errno>(Some((0usize, iv.ino)))
                    &&& final(self).pos_spec() == 1
                }
                &&& pos0 == 1 ==> {
                    &&& r == Ok::<Option<(usize, u64)>, Errno>(Some((1usize, parent_or_self(iv))))
                    &&& final(self).pos_spec() == 2
                }
                &&& pos0 >= 2 && pos0 - 2 < iv.children.len() ==> {
                    &&& r == Ok::<Option<(usize, u64)>, Errno>(
                        Some((old(self).pos, iv.children[pos0 - 2])),
                    )
                    &&& final(self).pos_spec() == pos0 + 1
                }
                &&& pos0 >= 2 && pos0 - 2 >= iv.children.len() ==> {
                    &&& r == Ok::<Option<(usize, u64)>, Errno>(None)
                    &&& final(self).pos_spec() == pos0
                }
            },
    {
        let entry: u64;
        match self.metadata.inode.as_ref() {
            Some(ind) => {
                if ind.unlinked {
                    return Err(Errno::ENOENT);
                }
                entry = if self.pos == 0 {
                    ind.ino
                } else if self.pos == 1 {
                    match ind.parent {
                        Some(p) => p,
                        None => ind.ino,
                    }
                } else {
                    match ind.lookup_idx(self.pos - 2, &self.audit) {
                        Ok(child) => child,
                        Err(Errno::ENOENT) => {
                            return Ok(None);
                        },
                        Err(e) => {
                            return Err(e);
                        },
                    }
                };
            },
            None => {
                return Err(Errno::ENOTDIR);
            },
        }
        let idx = self.pos;
        self.pos = self.pos + 1;
        Ok(Some((idx, entry)))
    }
}

} // verus!
