use vfs_file::Audit;
use vfs_file::CharacterFile;
use vfs_file::DirFile;
use vfs_file::Errno;
use vfs_file::File;
use vfs_file::FileMeta;
use vfs_file::Inode;
use vfs_file::RegularFile;
use vfs_file::Seek;
use vfs_file::WakeHandle;

fn inode_with(bytes: Vec<u8>) -> Inode {
    Inode {
        ino: 1,
        bytes,
        unlinked: false,
        parent: None,
        children: Vec::new(),
        ioctl_result: 0,
    }
}

fn regular_with(bytes: Vec<u8>) -> RegularFile {
    RegularFile::new(FileMeta::new(Some(inode_with(bytes)), 0))
}

#[test]
fn seek_descriptor_parses_whence_codes() {
    assert_eq!(Seek::try_from((0, 7)), Ok(Seek::Start(7)));
    assert_eq!(Seek::try_from((1, -3)), Ok(Seek::Cur(-3)));
    assert_eq!(Seek::try_from((2, 0)), Ok(Seek::End(0)));
    assert_eq!(Seek::try_from((3, 0)), Err(Errno::EINVAL));
    assert_eq!(Seek::try_from((-1, 5)), Err(Errno::EINVAL));
}

#[test]
fn seek_start_then_cur_reports_offset() {
    let mut f = regular_with(vec![1, 2, 3]);
    assert_eq!(f.seek(Seek::Start(5)), Ok(5));
    assert_eq!(f.seek(Seek::Cur(0)), Ok(5));
    assert_eq!(f.seek(Seek::Start(0)), Ok(0));
    assert_eq!(f.seek(Seek::Cur(0)), Ok(0));
}

#[test]
fn seek_negative_start_fails_and_keeps_position() {
    let mut f = regular_with(vec![1, 2, 3]);
    assert_eq!(f.seek(Seek::Start(4)), Ok(4));
    assert_eq!(f.seek(Seek::Start(-1)), Err(Errno::EINVAL));
    assert_eq!(f.seek(Seek::Cur(0)), Ok(4));
}

#[test]
fn seek_cur_overflow_and_underflow() {
    let mut f = regular_with(Vec::new());
    assert_eq!(f.seek(Seek::Start(isize::MAX)), Ok(isize::MAX));
    assert_eq!(f.seek(Seek::Cur(1)), Err(Errno::EOVERFLOW));
    assert_eq!(f.seek(Seek::Cur(0)), Ok(isize::MAX));
    assert_eq!(f.seek(Seek::Start(0)), Ok(0));
    assert_eq!(f.seek(Seek::Cur(isize::MIN)), Ok(isize::MIN));
    assert_eq!(f.seek(Seek::Cur(-1)), Err(Errno::EINVAL));
    assert_eq!(f.seek(Seek::Cur(0)), Ok(isize::MIN));
}

#[test]
fn seek_end_adds_to_size() {
    let mut f = regular_with(vec![9, 9, 9, 9]);
    assert_eq!(f.seek(Seek::End(0)), Ok(4));
    assert_eq!(f.seek(Seek::End(3)), Ok(7));
    assert_eq!(f.seek(Seek::End(-4)), Ok(0));
}

#[test]
fn read_advances_cursor() {
    let mut f = regular_with(vec![10, 11, 12, 13, 14]);
    let mut buf = vec![0u8; 2];
    assert_eq!(f.read(&mut buf), Ok(2));
    assert_eq!(buf, vec![10, 11]);
    assert_eq!(f.read(&mut buf), Ok(2));
    assert_eq!(buf, vec![12, 13]);
    assert_eq!(f.read(&mut buf), Ok(1));
    assert_eq!(buf, vec![14, 13]);
    assert_eq!(f.read(&mut buf), Ok(0));
    assert_eq!(f.seek(Seek::Cur(0)), Ok(5));
}

#[test]
fn write_at_cursor_and_past_end() {
    let mut f = regular_with(vec![1, 2, 3]);
    assert_eq!(f.seek(Seek::Start(1)), Ok(1));
    assert_eq!(f.write(&vec![8, 9]), Ok(2));
    assert_eq!(f.seek(Seek::Cur(0)), Ok(3));
    assert_eq!(f.read_all(), Ok(vec![1, 8, 9]));
    assert_eq!(f.seek(Seek::Start(5)), Ok(5));
    assert_eq!(f.write(&vec![7]), Ok(1));
    assert_eq!(f.read_all(), Ok(vec![1, 8, 9, 0, 0, 7]));
}

#[test]
fn pwrite_restores_cursor_on_success_and_failure() {
    let mut f = regular_with(vec![1, 2, 3]);
    assert_eq!(f.seek(Seek::Start(3)), Ok(3));
    assert_eq!(f.pwrite(&vec![5, 6], 0), Ok(2));
    assert_eq!(f.seek(Seek::Cur(0)), Ok(3));
    assert_eq!(f.pwrite(&vec![5, 6], isize::MAX), Err(Errno::EOVERFLOW));
    assert_eq!(f.seek(Seek::Cur(0)), Ok(3));
    assert_eq!(f.pwrite(&vec![5, 6], -1), Err(Errno::EINVAL));
    assert_eq!(f.seek(Seek::Cur(0)), Ok(3));
    assert_eq!(f.read_all(), Ok(vec![5, 6, 3]));
}

#[test]
fn pread_does_not_move_cursor() {
    let mut f = regular_with(vec![0, 1, 2, 3, 4, 5, 6, 7]);
    assert_eq!(f.seek(Seek::Start(2)), Ok(2));
    let mut hi = vec![0u8; 4];
    assert_eq!(f.pread(&mut hi, 4), Ok(4));
    assert_eq!(hi, vec![4, 5, 6, 7]);
    assert_eq!(f.seek(Seek::Cur(0)), Ok(2));
    let mut lo = vec![0u8; 4];
    assert_eq!(f.pread(&mut lo, 0), Ok(4));
    assert_eq!(lo, vec![0, 1, 2, 3]);
    assert_eq!(f.seek(Seek::Cur(0)), Ok(2));
}

#[test]
fn pread_sequences_are_isolated() {
    let mut one = regular_with(vec![0, 1, 2, 3, 4, 5, 6, 7]);
    let mut other = regular_with(vec![0, 1, 2, 3, 4, 5, 6, 7]);
    let mut a1 = vec![0u8; 4];
    let mut b1 = vec![0u8; 4];
    assert_eq!(one.pread(&mut a1, 0), Ok(4));
    assert_eq!(one.pread(&mut b1, 4), Ok(4));
    let mut b2 = vec![0u8; 4];
    let mut a2 = vec![0u8; 4];
    assert_eq!(other.pread(&mut b2, 4), Ok(4));
    assert_eq!(other.pread(&mut a2, 0), Ok(4));
    assert_eq!(a1, a2);
    assert_eq!(b1, b2);
}

#[test]
fn read_all_on_empty_file_is_empty() {
    let mut f = regular_with(Vec::new());
    assert_eq!(f.read_all(), Ok(Vec::new()));
}

#[test]
fn read_all_returns_whole_contents_from_anywhere() {
    let mut f = regular_with(vec![3, 1, 4, 1, 5]);
    assert_eq!(f.seek(Seek::Start(4)), Ok(4));
    assert_eq!(f.read_all(), Ok(vec![3, 1, 4, 1, 5]));
}

#[test]
fn read_all_drains_more_than_one_chunk() {
    let mut bytes = vec![7u8; vfs_file::PAGE_SIZE];
    bytes.push(9);
    let mut f = regular_with(bytes.clone());
    assert_eq!(f.read_all(), Ok(bytes));
}

#[test]
fn truncate_keeps_cursor() {
    let mut f = regular_with(vec![1, 2, 3, 4]);
    assert_eq!(f.seek(Seek::Start(3)), Ok(3));
    assert_eq!(f.truncate(2), Ok(()));
    assert_eq!(f.seek(Seek::Cur(0)), Ok(3));
    assert_eq!(f.read_all(), Ok(vec![1, 2]));
    assert_eq!(f.truncate(4), Ok(()));
    assert_eq!(f.read_all(), Ok(vec![1, 2, 0, 0]));
    assert_eq!(f.truncate(-1), Err(Errno::EINVAL));
}

#[test]
fn sync_succeeds_and_changes_nothing() {
    let mut f = regular_with(vec![1]);
    assert_eq!(f.seek(Seek::Start(1)), Ok(1));
    assert_eq!(f.sync(), Ok(()));
    assert_eq!(f.seek(Seek::Cur(0)), Ok(1));
    assert_eq!(f.read_all(), Ok(vec![1]));
}

#[test]
fn capability_defaults_deny() {
    let mut reg = regular_with(Vec::new());
    assert_eq!(reg.as_socket(), Err(Errno::ENOTSOCK));
    assert_eq!(reg.readdir(), Err(Errno::ENOTDIR));
    assert_eq!(reg.pollin(None), Ok(true));
    assert_eq!(reg.pollout(None), Ok(true));
    assert_eq!(reg.pollin(Some(WakeHandle { task: 1 })), Ok(true));
    assert_eq!(reg.pollout(Some(WakeHandle { task: 2 })), Ok(true));

    let mut dir = DirFile::new(FileMeta::new(Some(inode_with(Vec::new())), 0), Audit {});
    let mut buf = vec![0u8; 4];
    assert_eq!(dir.read(&mut buf), Err(Errno::EISDIR));
    assert_eq!(dir.write(&vec![1]), Err(Errno::EOPNOTSUPP));
    assert_eq!(dir.seek(Seek::Start(0)), Err(Errno::EOPNOTSUPP));
    assert_eq!(dir.truncate(0), Err(Errno::EOPNOTSUPP));
    assert_eq!(dir.sync(), Err(Errno::EOPNOTSUPP));
    assert_eq!(dir.pread(&mut buf, 0), Err(Errno::EOPNOTSUPP));
    assert_eq!(dir.pwrite(&vec![1], 0), Err(Errno::EOPNOTSUPP));
    assert_eq!(dir.as_socket(), Err(Errno::ENOTSOCK));

    let mut chr = CharacterFile::new(FileMeta::new(Some(inode_with(Vec::new())), 0));
    assert_eq!(chr.as_socket(), Err(Errno::ENOTSOCK));
    assert_eq!(chr.truncate(0), Err(Errno::EOPNOTSUPP));
    assert_eq!(chr.sync(), Err(Errno::EOPNOTSUPP));
    assert_eq!(chr.seek(Seek::Start(0)), Err(Errno::EOPNOTSUPP));
    assert_eq!(chr.readdir(), Err(Errno::ENOTDIR));
    assert_eq!(chr.pread(&mut buf, 0), Err(Errno::EOPNOTSUPP));
    assert_eq!(chr.pwrite(&vec![1], 0), Err(Errno::EOPNOTSUPP));
}

#[test]
fn ioctl_is_not_a_tty_except_on_character_files() {
    let reg = regular_with(Vec::new());
    assert_eq!(reg.ioctl(1, 2, 3, 4, 5), Err(Errno::ENOTTY));

    let dir = DirFile::new(FileMeta::new(Some(inode_with(Vec::new())), 0), Audit {});
    assert_eq!(dir.ioctl(1, 2, 3, 4, 5), Err(Errno::ENOTTY));

    let mut ind = inode_with(Vec::new());
    ind.ioctl_result = 42;
    let chr = CharacterFile::new(FileMeta::new(Some(ind), 0));
    assert_eq!(chr.ioctl(1, 2, 3, 4, 5), Ok(42));
    assert_eq!(chr.ioctl(999, 0, 0, 0, 0), Ok(42));
}

#[test]
fn character_file_tracks_its_offset() {
    let mut chr = CharacterFile::new(FileMeta::new(Some(inode_with(vec![1, 2, 3])), 0));
    let mut buf = vec![0u8; 2];
    assert_eq!(chr.read(&mut buf), Ok(2));
    assert_eq!(buf, vec![1, 2]);
    assert_eq!(chr.read(&mut buf), Ok(1));
    assert_eq!(buf, vec![3, 2]);
    assert_eq!(chr.write(&vec![8, 9]), Ok(2));
    assert_eq!(chr.read(&mut buf), Ok(0));
    let mut drained = regular_with(Vec::new());
    drained.metadata.inode = chr.metadata.inode.take();
    assert_eq!(drained.read_all(), Ok(vec![1, 2, 3, 8, 9]));
}

#[test]
fn readdir_walks_self_parent_then_children() {
    let mut ind = inode_with(Vec::new());
    ind.ino = 10;
    ind.parent = Some(5);
    ind.children = vec![100, 200];
    let mut dir = DirFile::new(FileMeta::new(Some(ind), 0), Audit {});
    assert_eq!(dir.readdir(), Ok(Some((0, 10))));
    assert_eq!(dir.readdir(), Ok(Some((1, 5))));
    assert_eq!(dir.readdir(), Ok(Some((2, 100))));
    assert_eq!(dir.readdir(), Ok(Some((3, 200))));
    assert_eq!(dir.readdir(), Ok(None));
    assert_eq!(dir.readdir(), Ok(None));
}

#[test]
fn readdir_parent_falls_back_to_self() {
    let mut ind = inode_with(Vec::new());
    ind.ino = 77;
    ind.parent = None;
    let mut dir = DirFile::new(FileMeta::new(Some(ind), 0), Audit {});
    assert_eq!(dir.readdir(), Ok(Some((0, 77))));
    assert_eq!(dir.readdir(), Ok(Some((1, 77))));
}

#[test]
fn readdir_end_does_not_advance_cursor() {
    let mut ind = inode_with(Vec::new());
    ind.ino = 4;
    ind.children = vec![40];
    let mut dir = DirFile::new(FileMeta::new(Some(ind), 0), Audit {});
    assert_eq!(dir.readdir(), Ok(Some((0, 4))));
    assert_eq!(dir.readdir(), Ok(Some((1, 4))));
    assert_eq!(dir.readdir(), Ok(Some((2, 40))));
    assert_eq!(dir.readdir(), Ok(None));
    if let Some(ind) = dir.metadata.inode.as_mut() {
        ind.children.push(41);
    }
    assert_eq!(dir.readdir(), Ok(Some((3, 41))));
}

#[test]
fn readdir_on_unlinked_directory_fails_everywhere() {
    let mut ind = inode_with(Vec::new());
    ind.unlinked = true;
    ind.children = vec![100];
    let mut dir = DirFile::new(FileMeta::new(Some(ind), 0), Audit {});
    assert_eq!(dir.readdir(), Err(Errno::ENOENT));
    dir.pos = 1;
    assert_eq!(dir.readdir(), Err(Errno::ENOENT));
    dir.pos = 9;
    assert_eq!(dir.readdir(), Err(Errno::ENOENT));
    assert_eq!(dir.pos, 9);
}

#[test]
fn file_meta_keeps_what_it_was_given() {
    let meta = FileMeta::new(None, 3);
    assert!(meta.inode.is_none());
    assert_eq!(meta.flags, 3);
    let reg = RegularFile::new(FileMeta::new(Some(inode_with(vec![1])), 7));
    assert_eq!(reg.metadata().flags, 7);
    assert!(reg.metadata().inode.is_some());
}
