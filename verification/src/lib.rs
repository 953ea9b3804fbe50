//! Per-open-instance file descriptions for a virtual file system: the layer
//! between a process's file-descriptor table and the underlying inodes.
//!
//! One capability interface, [`file::File`], gives every operation a
//! default "not supported" answer, and each variant overrides exactly what
//! it implements: [`regular::RegularFile`] owns a signed cursor with
//! overflow-checked seek arithmetic and positioned I/O that relocates and
//! restores the cursor, [`dir::DirFile`] enumerates the self, parent and
//! child entries of a directory, and [`chardev::CharacterFile`] forwards
//! reads, writes and control requests to its device at a tracked offset.
//! The storage layer underneath is an outside collaborator; [`inode::Inode`]
//! models its interface as plain values so every contract here is exact.

pub mod chardev;
pub mod dir;
pub mod errno;
pub mod file;
pub mod inode;
pub mod regular;

pub use chardev::CharacterFile;
pub use dir::DirFile;
pub use errno::Errno;
pub use file::File;
pub use file::FileMeta;
pub use file::Seek;
pub use file::WakeHandle;
pub use file::PAGE_SIZE;
pub use inode::Audit;
pub use inode::Inode;
pub use regular::RegularFile;
