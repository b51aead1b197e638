use wasi_common::advise::{fd_advise, FadviseCall, PosixFadviseAdvice};
use wasi_common::dir::{
    dirent_from_entry, fd_readdir, DirStart, Entry, FileType, ReaddirReply,
};
use wasi_common::error::{errno_from_nix, syscall_result, Error};
use wasi_common::path::{
    path_rename, path_symlink, path_unlink_file, str_to_cstring, PathGet,
};
use wasi_common::wasi::{
    __WASI_ADVICE_DONTNEED, __WASI_ADVICE_NOREUSE, __WASI_ADVICE_NORMAL, __WASI_ADVICE_RANDOM,
    __WASI_ADVICE_SEQUENTIAL, __WASI_ADVICE_WILLNEED, __WASI_DIRCOOKIE_START,
};

fn at(dirfd: i32, path: &str) -> PathGet {
    PathGet { dirfd, path: path.to_string() }
}

fn entry(file_name: &[u8], seek_loc: i64) -> Entry {
    Entry { file_name: file_name.to_vec(), ino: 77, file_type: FileType::RegularFile, seek_loc }
}

#[test]
fn system_calls_succeed_with_zero() {
    assert_eq!(syscall_result(0, 0), Ok(()));
    assert_eq!(syscall_result(0, libc::ENOENT), Ok(()));
    assert_eq!(syscall_result(-1, libc::ENOENT), Err(Error::Host(libc::ENOENT)));
    assert_eq!(syscall_result(1, libc::EPERM), Err(Error::Host(libc::EPERM)));
    assert_eq!(errno_from_nix(libc::EACCES), Error::Host(libc::EACCES));
}

#[test]
fn c_strings_end_in_zero() {
    assert_eq!(str_to_cstring("").unwrap(), vec![0]);
    assert_eq!(str_to_cstring("ab").unwrap(), vec![b'a', b'b', 0]);
    assert_eq!(str_to_cstring("\u{e9}/\u{20ac}").unwrap(), b"\xc3\xa9/\xe2\x82\xac\0".to_vec());
}

#[test]
fn a_path_with_a_zero_is_refused() {
    assert_eq!(str_to_cstring("\0"), Err(Error::EILSEQ));
    assert_eq!(str_to_cstring("a\0b"), Err(Error::EILSEQ));
    assert_eq!(path_unlink_file(&at(3, "a\0")).unwrap_err(), Error::EILSEQ);
    assert_eq!(path_symlink("\0", &at(3, "b")).unwrap_err(), Error::EILSEQ);
    assert_eq!(path_symlink("a", &at(3, "\0b")).unwrap_err(), Error::EILSEQ);
    assert_eq!(path_rename(&at(3, "a\0"), &at(4, "b")).unwrap_err(), Error::EILSEQ);
    assert_eq!(path_rename(&at(3, "a"), &at(4, "b\0")).unwrap_err(), Error::EILSEQ);
}

#[test]
fn unlinking_names_the_path_in_its_directory() {
    let call = path_unlink_file(&at(3, "dir/file")).unwrap();
    assert_eq!(call.dirfd, 3);
    assert_eq!(call.path, b"dir/file\0".to_vec());
    assert_eq!(call.flags, 0);
}

#[test]
fn a_symbolic_link_keeps_its_target() {
    let call = path_symlink("../target", &at(5, "link")).unwrap();
    assert_eq!(call.old_path, b"../target\0".to_vec());
    assert_eq!(call.dirfd, 5);
    assert_eq!(call.new_path, b"link\0".to_vec());
}

#[test]
fn renaming_goes_from_old_to_new() {
    let call = path_rename(&at(5, "from"), &at(6, "to")).unwrap();
    assert_eq!(call.old_dirfd, 5);
    assert_eq!(call.old_path, b"from\0".to_vec());
    assert_eq!(call.new_dirfd, 6);
    assert_eq!(call.new_path, b"to\0".to_vec());
}

#[test]
fn a_listing_begins_at_its_cookie() {
    assert_eq!(fd_readdir(__WASI_DIRCOOKIE_START).start, DirStart::Rewind);
    assert_eq!(fd_readdir(1).start, DirStart::Seek(1));
    assert_eq!(fd_readdir(i64::MAX as u64).start, DirStart::Seek(i64::MAX));
    assert_eq!(fd_readdir(1 << 63).start, DirStart::Seek(i64::MIN));
    assert_eq!(fd_readdir(u64::MAX).start, DirStart::Seek(-1));
}

#[test]
fn a_listing_ends_without_an_entry() {
    let iter = fd_readdir(0);
    assert!(iter.next(ReaddirReply { ret: 0, errno: 0, entry: None }).is_none());
    assert!(iter.next(ReaddirReply { ret: 0, errno: libc::EBADF, entry: None }).is_none());
    assert!(iter.next(ReaddirReply { ret: libc::EBADF, errno: 0, entry: None }).is_none());
}

#[test]
fn a_listing_hands_on_entries_and_errors() {
    let iter = fd_readdir(0);
    let reply = ReaddirReply { ret: 0, errno: 0, entry: Some(entry(b"x", 4)) };
    let item = iter.next(reply).unwrap().unwrap();
    assert_eq!(item.file_name, b"x".to_vec());
    assert_eq!(item.seek_loc, 4);
    let reply = ReaddirReply { ret: -1, errno: libc::EBADF, entry: Some(entry(b"x", 4)) };
    assert_eq!(iter.next(reply).unwrap().unwrap_err(), libc::EBADF);
}

#[test]
fn an_entry_is_told_as_it_is() {
    let dirent = dirent_from_entry(Ok(entry("\u{e9}t\u{e9}.txt".as_bytes(), 12))).unwrap();
    assert_eq!(dirent.name, "\u{e9}t\u{e9}.txt");
    assert_eq!(dirent.ino, 77);
    assert_eq!(dirent.ftype, FileType::RegularFile);
    assert_eq!(dirent.cookie, 12);
}

#[test]
fn entries_that_cannot_be_told_are_refused() {
    assert_eq!(dirent_from_entry(Err(libc::EBADF)).unwrap_err(), Error::Host(libc::EBADF));
    assert_eq!(dirent_from_entry(Ok(entry(b"\xff", 12))).unwrap_err(), Error::Utf8);
    assert_eq!(dirent_from_entry(Ok(entry(b"\xc3", 12))).unwrap_err(), Error::Utf8);
    assert_eq!(dirent_from_entry(Ok(entry(b"\xed\xa0\x80", 12))).unwrap_err(), Error::Utf8);
    assert_eq!(dirent_from_entry(Ok(entry(b"x", -1))).unwrap_err(), Error::TryFromInt);
    assert_eq!(dirent_from_entry(Ok(entry(b"\xff", -1))).unwrap_err(), Error::Utf8);
}

#[test]
fn a_listing_resumes_from_the_cookie_of_an_entry() {
    for loc in [1i64, 2, 4096, i64::MAX] {
        let dirent = dirent_from_entry(Ok(entry(b"x", loc))).unwrap();
        assert_eq!(fd_readdir(dirent.cookie).start, DirStart::Seek(loc));
    }
    let dirent = dirent_from_entry(Ok(entry(b"x", 0))).unwrap();
    assert_eq!(fd_readdir(dirent.cookie).start, DirStart::Rewind);
}

#[test]
fn advice_is_handed_on() {
    let expected = [
        (__WASI_ADVICE_NORMAL, PosixFadviseAdvice::POSIX_FADV_NORMAL),
        (__WASI_ADVICE_SEQUENTIAL, PosixFadviseAdvice::POSIX_FADV_SEQUENTIAL),
        (__WASI_ADVICE_RANDOM, PosixFadviseAdvice::POSIX_FADV_RANDOM),
        (__WASI_ADVICE_WILLNEED, PosixFadviseAdvice::POSIX_FADV_WILLNEED),
        (__WASI_ADVICE_DONTNEED, PosixFadviseAdvice::POSIX_FADV_DONTNEED),
        (__WASI_ADVICE_NOREUSE, PosixFadviseAdvice::POSIX_FADV_NOREUSE),
    ];
    for (advice, host) in expected {
        assert_eq!(
            fd_advise(advice, 10, 20),
            Ok(FadviseCall { offset: 10, len: 20, advice: host })
        );
    }
}

#[test]
fn unknown_advice_is_invalid() {
    assert_eq!(fd_advise(6, 0, 0), Err(Error::EINVAL));
    assert_eq!(fd_advise(255, 0, 0), Err(Error::EINVAL));
}

#[test]
fn ranges_beyond_the_hosts_are_refused() {
    let max = i64::MAX as u64;
    assert_eq!(
        fd_advise(0, max, max),
        Ok(FadviseCall {
            offset: i64::MAX,
            len: i64::MAX,
            advice: PosixFadviseAdvice::POSIX_FADV_NORMAL,
        })
    );
    assert_eq!(fd_advise(0, max + 1, 0), Err(Error::TryFromInt));
    assert_eq!(fd_advise(0, 0, u64::MAX), Err(Error::TryFromInt));
    assert_eq!(fd_advise(6, max + 1, 0), Err(Error::TryFromInt));
}

#[test]
fn each_answer_of_the_host_is_told_to_the_guest() {
    let iter = fd_readdir(0);
    let answer = |ret: i32, entry: Option<Entry>| {
        iter.next_dirent(ReaddirReply { ret, errno: libc::EBADF, entry })
    };
    let dirent = answer(0, Some(entry(b"x", 4))).unwrap().unwrap();
    assert_eq!(dirent.name, "x");
    assert_eq!(dirent.cookie, 4);
    assert_eq!(fd_readdir(dirent.cookie).start, DirStart::Seek(4));
    assert_eq!(answer(0, Some(entry(b"\xff", 4))).unwrap().unwrap_err(), Error::Utf8);
    assert_eq!(answer(0, Some(entry(b"x", -4))).unwrap().unwrap_err(), Error::TryFromInt);
    assert_eq!(answer(-1, None).unwrap().unwrap_err(), Error::Host(libc::EBADF));
    assert!(answer(0, None).is_none());
}
