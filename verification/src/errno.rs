use vstd::prelude::*;

verus! {

/// POSIX-style error kinds returned by the file-description layer.
///
/// Capability mismatches (an operation invoked on a variant that does not
/// implement it) use `ENOTSOCK`, `EOPNOTSUPP`, `ENOTTY`, `ENOTDIR` and
/// `EISDIR`; argument validation uses `EINVAL`; offset arithmetic that leaves
/// the representable range uses `EOVERFLOW`; and `ENOENT` is both a genuine
/// "no such entry" and, inside directory enumeration, the signal that is
/// translated into the non-error end-of-directory result.
#[derive(Clone, Copy, Debug, PartialEq, Eq, Structural)]
pub enum Errno {
    /// The file is not a socket.
    ENOTSOCK,
    /// The operation is not supported by this kind of file.
    EOPNOTSUPP,
    /// The file is not a terminal device.
    ENOTTY,
    /// The file is not a directory.
    ENOTDIR,
    /// The file is a directory.
    EISDIR,
    /// An argument was invalid: a bad whence code, a negative absolute
    /// offset, or an offset that would move a position below the
    /// representable minimum.
    EINVAL,
    /// Offset arithmetic overflowed above the representable maximum.
    EOVERFLOW,
    /// No such entry.
    ENOENT,
}

} // verus!
