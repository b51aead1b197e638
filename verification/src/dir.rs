//! Reading a directory.
//!
//! `fd_readdir` says where in the directory to begin. For each answer of the host,
//! `DirIter::next_dirent` says what the guest gets: `DirIter::next` tells whether the
//! listing goes on, and `dirent_from_entry` makes of an entry what the guest is told.

use crate::error::{errno_from_nix, Error};
use crate::wasi;
use vstd::prelude::*;
use vstd::utf8::*;

verus! {

/// The kinds of files.
#[derive(Clone, Copy, Debug, PartialEq, Eq, Structural)]
pub enum FileType {
    Unknown,
    BlockDevice,
    CharacterDevice,
    Directory,
    RegularFile,
    SocketDgram,
    SocketStream,
    Symlink,
}

/// An entry of a directory, as the host gives it.
#[derive(Debug)]
pub struct Entry {
    /// The bytes of the name, without a terminator.
    pub file_name: Vec<u8>,
    pub ino: u64,
    pub file_type: FileType,
    /// Where in the directory the next entry is.
    pub seek_loc: i64,
}

/// An entry of a directory, as the guest is told of it.
#[derive(Debug)]
pub struct Dirent {
    pub name: String,
    pub ftype: FileType,
    pub ino: u64,
    pub cookie: wasi::__wasi_dircookie_t,
}

/// What to do with a directory before it is read.
#[derive(Clone, Copy, Debug, PartialEq, Eq, Structural)]
pub enum DirStart {
    /// Go back to its beginning.
    Rewind,
    /// Go to a location in it.
    Seek(i64),
}

/// A call of `readdir64_r`: what it returned, the `errno` number it left behind, and the
/// entry it filled in, if any.
#[derive(Debug)]
pub struct ReaddirReply {
    pub ret: i32,
    pub errno: i32,
    pub entry: Option<Entry>,
}

/// A listing of a directory.
#[derive(Clone, Copy, Debug, PartialEq, Eq, Structural)]
pub struct DirIter {
    pub start: DirStart,
}

/// The bits of `cookie` read as a signed integer.
pub open spec fn signed(cookie: wasi::__wasi_dircookie_t) -> int {
    if cookie <= i64::MAX {
        cookie as int
    } else {
        cookie - u64::MAX - 1
    }
}

/// Where a listing from `cookie` on begins.
pub open spec fn dir_start(cookie: wasi::__wasi_dircookie_t) -> DirStart {
    if cookie == wasi::__WASI_DIRCOOKIE_START {
        DirStart::Rewind
    } else {
        DirStart::Seek(signed(cookie) as i64)
    }
}

/// What the guest is told of `entry`, where it can be told.
pub open spec fn tells(dirent: Dirent, entry: Entry) -> bool {
    &&& encode_utf8(dirent.name@) == entry.file_name@
    &&& dirent.ino == entry.ino
    &&& dirent.ftype == entry.file_type
    &&& dirent.cookie == entry.seek_loc
}

/// What the guest is told in place of an entry, if anything: that the host failed, that
/// the name is not UTF-8, or that the location is not a cookie, in this order.
pub open spec fn entry_error(entry: Result<Entry, i32>) -> Option<Error> {
    match entry {
        Err(errno) => Some(Error::Host(errno)),
        Ok(entry) => if !valid_utf8(entry.file_name@) {
            Some(Error::Utf8)
        } else if entry.seek_loc < 0 {
            Some(Error::TryFromInt)
        } else {
            None
        },
    }
}

/// What an answer of the host means: an error, the end of the directory, or an entry.
/// The error number in `ret` itself, if it is not -1, is not looked at.
pub open spec fn readdir_item(reply: ReaddirReply) -> Option<Result<Entry, i32>> {
    if reply.ret == -1 {
        Some(Err(reply.errno))
    } else {
        match reply.entry {
            Some(entry) => Some(Ok(entry)),
            None => None,
        }
    }
}

/// Whether `item` is what the guest gets for the host's answer `reply`: nothing at the end
/// of the directory, and otherwise what can be told of the entry, or why it cannot.
pub open spec fn gets(item: Option<Result<Dirent, Error>>, reply: ReaddirReply) -> bool {
    match readdir_item(reply) {
        None => item is None,
        Some(entry) => match entry_error(entry) {
            Some(error) => item == Some(Err::<Dirent, Error>(error)),
            None => item matches Some(Ok(dirent)) && tells(dirent, entry->Ok_0),
        },
    }
}

/// Begins a listing of a directory. Unless `cookie` is the first, entries that are new
/// since may be missed.
pub fn fd_readdir(cookie: wasi::__wasi_dircookie_t) -> (iter: DirIter)
    ensures
        iter.start == dir_start(cookie),
{
    if cookie == wasi::__WASI_DIRCOOKIE_START {
        DirIter { start: DirStart::Rewind }
    } else {
        assert(cookie <= 0x7fff_ffff_ffff_ffff ==> cookie as i64 == cookie) by (bit_vector);
        assert(cookie > 0x7fff_ffff_ffff_ffff ==> cookie as i64 == cookie
            - 0x1_0000_0000_0000_0000) by (bit_vector);
        #[verifier::truncate]
        let loc: i64 = cookie as i64;
        DirIter { start: DirStart::Seek(loc) }
    }
}

impl DirIter {
    /// Takes the host's next answer: `None` at the end of the directory.
    pub fn next(&self, reply: ReaddirReply) -> (item: Option<Result<Entry, i32>>)
        ensures
            item == readdir_item(reply),
    {
        if reply.ret == -1 {
            return Some(Err(reply.errno));
        }
        match reply.entry {
            Some(entry) => Some(Ok(entry)),
            None => None,
        }
    }

    /// Takes the host's next answer, and gives what the guest gets for it: `None` at the
    /// end of the directory.
    pub fn next_dirent(&self, reply: ReaddirReply) -> (item: Option<Result<Dirent, Error>>)
        ensures
            gets(item, reply),
    {
        match self.next(reply) {
            Some(entry) => Some(dirent_from_entry(entry)),
            None => None,
        }
    }
}

/// Makes of an entry what the guest is told.
pub fn dirent_from_entry(entry: Result<Entry, i32>) -> (result: Result<Dirent, Error>)
    ensures
        match result {
            Ok(dirent) => entry_error(entry) is None && tells(dirent, entry->Ok_0),
            Err(error) => entry_error(entry) == Some(error),
        },
{
    let entry = match entry {
        Ok(entry) => entry,
        Err(errno) => return Err(errno_from_nix(errno)),
    };
    let name = match core::str::from_utf8(entry.file_name.as_slice()) {
        Ok(name) => name.to_owned(),
        Err(_) => return Err(Error::Utf8),
    };
    match u64::try_from(entry.seek_loc) {
        Ok(cookie) => Ok(Dirent { name, ino: entry.ino, ftype: entry.file_type, cookie }),
        Err(_) => Err(Error::TryFromInt),
    }
}

/// A listing that begins from the cookie of an entry begins where that entry said the
/// next one is. The first location in a directory is reached by going back to the
/// beginning.
pub proof fn law_cookie_resumes_behind_its_entry(entry: Entry, dirent: Dirent)
    requires
        tells(dirent, entry),
    ensures
        dir_start(dirent.cookie) == if entry.seek_loc == 0 {
            DirStart::Rewind
        } else {
            DirStart::Seek(entry.seek_loc)
        },
{
}

/// Of an answer that the guest gets an entry for, the cookie leads a new listing to where
/// that entry said the next one is.
pub proof fn law_listing_resumes_behind_what_was_got(
    reply: ReaddirReply,
    item: Option<Result<Dirent, Error>>,
)
    requires
        gets(item, reply),
        item matches Some(Ok(_)),
    ensures
        reply.entry is Some,
        dir_start(item->0->Ok_0.cookie) == if reply.entry->0.seek_loc == 0 {
            DirStart::Rewind
        } else {
            DirStart::Seek(reply.entry->0.seek_loc)
        },
{
    law_cookie_resumes_behind_its_entry(reply.entry->0, item->0->Ok_0);
}

/// A listing ends exactly at an answer that neither failed nor holds an entry.
pub proof fn law_listing_ends_only_without_entry(
    reply: ReaddirReply,
    item: Option<Result<Dirent, Error>>,
)
    requires
        gets(item, reply),
    ensures
        item is None <==> reply.ret != -1 && reply.entry is None,
{
}

/// Two cookies begin at two places.
pub proof fn law_cookies_stay_distinct(
    a: wasi::__wasi_dircookie_t,
    b: wasi::__wasi_dircookie_t,
)
    requires
        dir_start(a) == dir_start(b),
    ensures
        a == b,
{
    assert(i64::MIN <= signed(a) <= i64::MAX);
    assert(i64::MIN <= signed(b) <= i64::MAX);
}

/// Nothing of an entry is lost on the way to the guest: two entries that the guest is
/// told the same of are the same.
pub proof fn law_dirent_determines_entry(dirent: Dirent, a: Entry, b: Entry)
    requires
        tells(dirent, a),
        tells(dirent, b),
    ensures
        a.file_name@ == b.file_name@,
        a.ino == b.ino,
        a.file_type == b.file_type,
        a.seek_loc == b.seek_loc,
{
}

/// Only one thing can be told of an entry.
pub proof fn law_entry_determines_dirent(entry: Entry, a: Dirent, b: Dirent)
    requires
        tells(a, entry),
        tells(b, entry),
    ensures
        a.name@ == b.name@,
        a.ino == b.ino,
        a.ftype == b.ftype,
        a.cookie == b.cookie,
{
    encode_utf8_decode_utf8(a.name@);
    encode_utf8_decode_utf8(b.name@);
}

/// An entry of which the guest can be told something is not refused.
pub proof fn law_told_entry_is_not_refused(entry: Entry, dirent: Dirent)
    requires
        tells(dirent, entry),
    ensures
        entry_error(Ok(entry)) is None,
{
    encode_utf8_valid_utf8(dirent.name@);
}

/// What is told of an entry is its name, its number, its location and its kind. Each of
/// the eight kinds is told as itself.
pub proof fn law_entry_is_told_as_it_is(dirent: Dirent, entry: Entry)
    requires
        tells(dirent, entry),
    ensures
        encode_utf8(dirent.name@) == entry.file_name@,
        dirent.ino == entry.ino,
        dirent.cookie == entry.seek_loc,
        entry.file_type is Unknown <==> dirent.ftype is Unknown,
        entry.file_type is BlockDevice <==> dirent.ftype is BlockDevice,
        entry.file_type is CharacterDevice <==> dirent.ftype is CharacterDevice,
        entry.file_type is Directory <==> dirent.ftype is Directory,
        entry.file_type is RegularFile <==> dirent.ftype is RegularFile,
        entry.file_type is SocketDgram <==> dirent.ftype is SocketDgram,
        entry.file_type is SocketStream <==> dirent.ftype is SocketStream,
        entry.file_type is Symlink <==> dirent.ftype is Symlink,
{
}

/// An entry is refused only for a name that is not UTF-8 or for a location below zero, the
/// name first, and a failure of the host is told as the host's.
pub proof fn law_entry_is_refused_only_for_cause(entry: Entry, errno: i32)
    ensures
        entry_error(Ok(entry)) == Some(Error::Utf8) <==> !valid_utf8(entry.file_name@),
        entry_error(Ok(entry)) == Some(Error::TryFromInt) <==> valid_utf8(entry.file_name@)
            && entry.seek_loc < 0,
        entry_error(Ok(entry)) is None <==> valid_utf8(entry.file_name@) && entry.seek_loc >= 0,
        entry_error(Err(errno)) == Some(Error::Host(errno)),
{
}

/// An answer of -1 is a failure with the host's error, whether or not an entry was filled
/// in. Any other answer is the entry that was filled in, or the end.
pub proof fn law_answer_fails_only_with_minus_one(reply: ReaddirReply)
    ensures
        reply.ret == -1 ==> readdir_item(reply) == Some(Err::<Entry, i32>(reply.errno)),
        reply.ret != -1 && reply.entry is Some ==> readdir_item(reply) == Some(
            Ok::<Entry, i32>(reply.entry->0),
        ),
        reply.ret != -1 && reply.entry is None ==> readdir_item(reply) is None,
{
}

/// What the guest gets for an answer of the host: the host's error after -1; otherwise, for
/// an entry, its name, number, kind and location, where the name is UTF-8 and the location
/// not below zero.
pub proof fn law_guest_gets_the_entry(
    reply: ReaddirReply,
    item: Option<Result<Dirent, Error>>,
)
    requires
        gets(item, reply),
    ensures
        reply.ret == -1 ==> item == Some(Err::<Dirent, Error>(Error::Host(reply.errno))),
        reply.ret != -1 && reply.entry is None ==> item is None,
        reply.ret != -1 && reply.entry is Some ==> {
            let entry = reply.entry->0;
            &&& !valid_utf8(entry.file_name@) ==> item == Some(Err::<Dirent, Error>(Error::Utf8))
            &&& valid_utf8(entry.file_name@) && entry.seek_loc < 0 ==> item == Some(
                Err::<Dirent, Error>(Error::TryFromInt),
            )
            &&& valid_utf8(entry.file_name@) && entry.seek_loc >= 0 ==> {
                &&& item matches Some(Ok(dirent))
                &&& dirent.name@ == decode_utf8(entry.file_name@)
                &&& dirent.ino == entry.ino
                &&& dirent.cookie == entry.seek_loc
                &&& dirent.ftype is Unknown <==> entry.file_type is Unknown
                &&& dirent.ftype is BlockDevice <==> entry.file_type is BlockDevice
                &&& dirent.ftype is CharacterDevice <==> entry.file_type is CharacterDevice
                &&& dirent.ftype is Directory <==> entry.file_type is Directory
                &&& dirent.ftype is RegularFile <==> entry.file_type is RegularFile
                &&& dirent.ftype is SocketDgram <==> entry.file_type is SocketDgram
                &&& dirent.ftype is SocketStream <==> entry.file_type is SocketStream
                &&& dirent.ftype is Symlink <==> entry.file_type is Symlink
            }
        },
{
    if let Some(Ok(dirent)) = item {
        encode_utf8_decode_utf8(dirent.name@);
    }
}

/// Only the first cookie goes back to the beginning. Every other is a location: itself
/// where the host's type holds it, and less by two to the power of 64 where not.
pub proof fn law_cookie_is_a_location(cookie: wasi::__wasi_dircookie_t)
    ensures
        dir_start(cookie) is Rewind <==> cookie == 0,
        0 < cookie <= 0x7fff_ffff_ffff_ffff ==> dir_start(cookie) is Seek && dir_start(cookie)->0
            == cookie,
        cookie > 0x7fff_ffff_ffff_ffff ==> dir_start(cookie) is Seek && dir_start(cookie)->0
            == cookie - 0x1_0000_0000_0000_0000,
{
}

} // verus!
