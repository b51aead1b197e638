//! Operations on paths: unlinking, symbolic links and renaming.
//!
//! Each function prepares the arguments of a system call; `error::syscall_result` says
//! how the call ended.

use crate::error::Error;
use vstd::prelude::*;
use vstd::utf8::*;

verus! {

/// A path, relative to an open directory.
#[derive(Debug)]
pub struct PathGet {
    pub dirfd: i32,
    pub path: String,
}

/// The arguments of a call of `unlinkat`.
#[derive(Debug)]
pub struct UnlinkAt {
    pub dirfd: i32,
    pub path: Vec<u8>,
    pub flags: i32,
}

/// The arguments of a call of `symlinkat`.
#[derive(Debug)]
pub struct SymlinkAt {
    pub old_path: Vec<u8>,
    pub dirfd: i32,
    pub new_path: Vec<u8>,
}

/// The arguments of a call of `renameat`.
#[derive(Debug)]
pub struct RenameAt {
    pub old_dirfd: i32,
    pub old_path: Vec<u8>,
    pub new_dirfd: i32,
    pub new_path: Vec<u8>,
}

/// Whether the host can be handed `s`: it must not hold the byte that ends a C string.
pub open spec fn is_representable(s: Seq<char>) -> bool {
    !encode_utf8(s).contains(0)
}

/// The bytes of `s`, with the end of a C string.
pub open spec fn c_string(s: Seq<char>) -> Seq<u8> {
    encode_utf8(s).push(0)
}

/// Converts `s` to a C string.
pub fn str_to_cstring(s: &str) -> (result: Result<Vec<u8>, Error>)
    ensures
        match result {
            Ok(cstring) => is_representable(s@) && cstring@ == c_string(s@),
            Err(error) => !is_representable(s@) && error == Error::EILSEQ,
        },
{
    let bytes = s.as_bytes();
    let mut cstring: Vec<u8> = Vec::new();
    let mut i: usize = 0;
    while i < bytes.len()
        invariant
            i <= bytes@.len(),
            bytes@ == encode_utf8(s@),
            cstring@ == bytes@.take(i as int),
            forall|j: int| 0 <= j < i ==> bytes@[j] != 0,
        decreases bytes@.len() - i,
    {
        if bytes[i] == 0 {
            assert(encode_utf8(s@)[i as int] == 0);
            return Err(Error::EILSEQ);
        }
        cstring.push(bytes[i]);
        i += 1;
    }
    cstring.push(0);
    Ok(cstring)
}

/// Prepares the removal of the file at `resolved`.
pub fn path_unlink_file(resolved: &PathGet) -> (result: Result<UnlinkAt, Error>)
    ensures
        match result {
            Ok(call) => {
                &&& is_representable(resolved.path@)
                &&& call.dirfd == resolved.dirfd
                &&& call.path@ == c_string(resolved.path@)
                &&& call.flags == 0
            },
            Err(error) => !is_representable(resolved.path@) && error == Error::EILSEQ,
        },
{
    match str_to_cstring(resolved.path.as_str()) {
        Ok(path) => Ok(UnlinkAt { dirfd: resolved.dirfd, path, flags: 0 }),
        Err(error) => Err(error),
    }
}

/// Prepares a symbolic link to `old_path` at `resolved`.
pub fn path_symlink(old_path: &str, resolved: &PathGet) -> (result: Result<SymlinkAt, Error>)
    ensures
        match result {
            Ok(call) => {
                &&& is_representable(old_path@)
                &&& is_representable(resolved.path@)
                &&& call.old_path@ == c_string(old_path@)
                &&& call.dirfd == resolved.dirfd
                &&& call.new_path@ == c_string(resolved.path@)
            },
            Err(error) => {
                &&& !is_representable(old_path@) || !is_representable(resolved.path@)
                &&& error == Error::EILSEQ
            },
        },
{
    let old_path = match str_to_cstring(old_path) {
        Ok(old_path) => old_path,
        Err(error) => return Err(error),
    };
    let new_path = match str_to_cstring(resolved.path.as_str()) {
        Ok(new_path) => new_path,
        Err(error) => return Err(error),
    };
    Ok(SymlinkAt { old_path, dirfd: resolved.dirfd, new_path })
}

/// Prepares the renaming of `resolved_old` to `resolved_new`.
pub fn path_rename(resolved_old: &PathGet, resolved_new: &PathGet) -> (result: Result<
    RenameAt,
    Error,
>)
    ensures
        match result {
            Ok(call) => {
                &&& is_representable(resolved_old.path@)
                &&& is_representable(resolved_new.path@)
                &&& call.old_dirfd == resolved_old.dirfd
                &&& call.old_path@ == c_string(resolved_old.path@)
                &&& call.new_dirfd == resolved_new.dirfd
                &&& call.new_path@ == c_string(resolved_new.path@)
            },
            Err(error) => {
                &&& !is_representable(resolved_old.path@) || !is_representable(resolved_new.path@)
                &&& error == Error::EILSEQ
            },
        },
{
    let old_path = match str_to_cstring(resolved_old.path.as_str()) {
        Ok(old_path) => old_path,
        Err(error) => return Err(error),
    };
    let new_path = match str_to_cstring(resolved_new.path.as_str()) {
        Ok(new_path) => new_path,
        Err(error) => return Err(error),
    };
    Ok(
        RenameAt {
            old_dirfd: resolved_old.dirfd,
            old_path,
            new_dirfd: resolved_new.dirfd,
            new_path,
        },
    )
}

/// The zero byte encodes the zero character and no other.
proof fn lemma_encode_scalar_has_zero_byte(scalar: u32)
    requires
        is_scalar(scalar),
    ensures
        encode_scalar(scalar).contains(0) <==> scalar == 0,
{
    if has_width_1_encoding(scalar) {
        assert((scalar & 0x7f) as u8 == 0 <==> scalar == 0) by (bit_vector)
            requires
                scalar <= 0x7f,
        ;
        assert(encode_scalar(scalar)[0] == leading_byte_width_1(scalar));
        assert(encode_scalar(scalar).len() == 1);
    } else {
        assert(0xc0u8 | ((scalar >> 6) & 0x1f) as u8 != 0) by (bit_vector);
        assert(0xe0u8 | ((scalar >> 12) & 0x0f) as u8 != 0) by (bit_vector);
        assert(0xf0u8 | ((scalar >> 18) & 0x7) as u8 != 0) by (bit_vector);
        assert(0x80u8 | (scalar & 0x3f) as u8 != 0) by (bit_vector);
        assert(0x80u8 | ((scalar >> 6) & 0x3f) as u8 != 0) by (bit_vector);
        assert(0x80u8 | ((scalar >> 12) & 0x3f) as u8 != 0) by (bit_vector);
    }
}

/// A path can be handed to the host exactly if it does not hold the zero character.
pub proof fn law_representable_without_zero_character(s: Seq<char>)
    ensures
        is_representable(s) <==> !s.contains('\0'),
    decreases s.len(),
{
    if s.len() > 0 {
        let head = encode_scalar(s[0] as u32);
        let tail = encode_utf8(s.drop_first());
        let first = s[0];
        if first as u32 == 0 {
            char_u32_cast(first, 0);
        }
        char_is_scalar(first);
        lemma_encode_scalar_has_zero_byte(s[0] as u32);
        law_representable_without_zero_character(s.drop_first());
        assert(encode_utf8(s) == head + tail);
        assert((head + tail).contains(0) <==> head.contains(0) || tail.contains(0)) by {
            if head.contains(0) {
                let i = head.index_of(0);
                assert((head + tail)[i] == 0);
            }
            if tail.contains(0) {
                let i = tail.index_of(0);
                assert((head + tail)[head.len() + i] == 0);
            }
        }
        assert(s.contains('\0') <==> s[0] == '\0' || s.drop_first().contains('\0')) by {
            if s.drop_first().contains('\0') {
                let i = s.drop_first().index_of('\0');
                assert(s[i + 1] == '\0');
            }
            if s.contains('\0') && s[0] != '\0' {
                let i = s.index_of('\0');
                assert(s.drop_first()[i - 1] == '\0');
            }
        }
    }
}

/// The C string of a path ends where the path does, and not before.
pub proof fn law_c_string_ends_with_the_path(s: Seq<char>, i: int)
    requires
        is_representable(s),
        0 <= i < c_string(s).len(),
    ensures
        c_string(s)[i] == 0 <==> i == encode_utf8(s).len(),
        c_string(s).take(encode_utf8(s).len() as int) == encode_utf8(s),
{
    if i < encode_utf8(s).len() {
        assert(encode_utf8(s)[i] == c_string(s)[i]);
    }
}

/// The host is handed the same C string for no two paths.
pub proof fn law_c_strings_stay_distinct(a: Seq<char>, b: Seq<char>)
    requires
        c_string(a) == c_string(b),
    ensures
        a == b,
{
    assert(c_string(a).drop_last() =~= encode_utf8(a));
    assert(c_string(b).drop_last() =~= encode_utf8(b));
    encode_utf8_decode_utf8(a);
    encode_utf8_decode_utf8(b);
}

/// The bytes that the host is handed for a path are one more than the path has, those of
/// the path first, and the last of them is zero, however long the path is.
pub proof fn law_c_string_is_the_path_and_a_zero(s: Seq<char>)
    ensures
        c_string(s).len() == encode_utf8(s).len() + 1,
        c_string(s).last() == 0,
        c_string(s).drop_last() == encode_utf8(s),
{
    assert(c_string(s).drop_last() =~= encode_utf8(s));
}

/// Reading a C string up to its first zero gives the path back.
pub proof fn law_path_is_read_back(s: Seq<char>, end: int)
    requires
        is_representable(s),
        0 <= end < c_string(s).len(),
        c_string(s)[end] == 0,
        forall|i: int| 0 <= i < end ==> c_string(s)[i] != 0,
    ensures
        decode_utf8(c_string(s).take(end)) == s,
{
    law_c_string_is_the_path_and_a_zero(s);
    law_c_string_ends_with_the_path(s, end);
    encode_utf8_decode_utf8(s);
}

} // verus!
