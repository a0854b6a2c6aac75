use vstd::prelude::*;
use vstd::slice::slice_subrange;
use vstd::slice::slice_to_vec;

use crate::bytes::{be_i32_value, be_u16_value, read_be_i32, read_be_u16};
use crate::error::Error;

verus! {

/// Size of the trailer, which ends the source.
pub const TRAILER_LEN: usize = 48;

/// Distance from the end of the source to each field of the trailer.
pub const MAGIC_FROM_END: usize = 4;
pub const VERSION_FROM_END: usize = 5;
pub const COMPRESSION_FROM_END: usize = 6;
pub const FLAGS_FROM_END: usize = 8;
pub const CONTENT_OFFSET_FROM_END: usize = 12;
pub const CONTENT_LENGTH_FROM_END: usize = 16;
pub const SHA1_FROM_END: usize = 48;

/// Length of the payload digest.
pub const SHA1_LEN: usize = 20;

/// The four bytes that end every trailer: `BAKE`.
pub open spec fn trailer_magic() -> Seq<u8> {
    seq![0x42u8, 0x41u8, 0x4bu8, 0x45u8]
}

/// The last four bytes of `s`.
pub open spec fn last_four(s: Seq<u8>) -> Seq<u8> {
    s.subrange(s.len() - 4, s.len() as int)
}

/// Whether `s` ends in the trailer magic.
pub open spec fn ends_in_magic(s: Seq<u8>) -> bool {
    s.len() >= 4 && last_four(s) == trailer_magic()
}

/// The `len` bytes that start `from_end` bytes before the end of `s`.
pub open spec fn field(s: Seq<u8>, from_end: int, len: int) -> Seq<u8> {
    s.subrange(s.len() - from_end, s.len() - from_end + len)
}

/// A parsed trailer, as mathematical values.
pub struct TrailerView {
    pub version: u8,
    pub compression: u8,
    pub flags: int,
    pub content_offset: int,
    pub content_length: int,
    pub sha1: Seq<u8>,
}

/// The trailer that the last 48 bytes of `s` describe.
pub open spec fn trailer_fields(s: Seq<u8>) -> TrailerView {
    TrailerView {
        version: s[s.len() - 5],
        compression: s[s.len() - 6],
        flags: be_u16_value(field(s, 8, 2)),
        content_offset: be_i32_value(field(s, 12, 4)),
        content_length: be_i32_value(field(s, 16, 4)),
        sha1: field(s, 48, 20),
    }
}

/// Describes where and how the payload is stored.
#[derive(Debug, Clone, PartialEq, Eq)]
pub struct Trailer {
    pub version: u8,
    pub compression: u8,
    pub flags: u16,
    pub content_offset: i32,
    pub content_length: i32,
    pub sha1: Vec<u8>,
}

impl View for Trailer {
    type V = TrailerView;

    open spec fn view(&self) -> TrailerView {
        TrailerView {
            version: self.version,
            compression: self.compression,
            flags: self.flags as int,
            content_offset: self.content_offset as int,
            content_length: self.content_length as int,
            sha1: self.sha1@,
        }
    }
}

/// Parses the trailer at the end of `source`, which holds the source's last
/// bytes (at least the last 48 where there are that many). Each field is read
/// at its fixed distance from the end, so bytes before the trailer never
/// matter. The magic is checked first: a short source that does not end in it
/// is reported as `BadMagic`.
pub fn read_trailer(source: &[u8]) -> (r: Result<Trailer, Error>)
    ensures
        source@.len() < 4 ==> r == Err::<Trailer, Error>(Error::Truncated),
        source@.len() >= 4 && !ends_in_magic(source@) ==> (r matches Err(Error::BadMagic { actual })
            && actual@ == last_four(source@)),
        ends_in_magic(source@) && source@.len() < 48 ==> r == Err::<Trailer, Error>(Error::Truncated),
        ends_in_magic(source@) && source@.len() >= 48 ==> (r matches Ok(t) && t@ == trailer_fields(
            source@,
        )),
{
    let n = source.len();
    if n < MAGIC_FROM_END {
        return Err(Error::Truncated);
    }
    let actual: [u8; 4] = [source[n - 4], source[n - 3], source[n - 2], source[n - 1]];
    if !(actual[0] == 0x42 && actual[1] == 0x41 && actual[2] == 0x4b && actual[3] == 0x45) {
        proof {
            assert(actual@ =~= last_four(source@));
        }
        return Err(Error::BadMagic { actual });
    }
    proof {
        assert(last_four(source@) =~= trailer_magic());
    }
    if n < TRAILER_LEN {
        return Err(Error::Truncated);
    }
    let version = source[n - VERSION_FROM_END];
    let compression = source[n - COMPRESSION_FROM_END];
    let flags = read_be_u16(slice_subrange(source, n - FLAGS_FROM_END, n - FLAGS_FROM_END + 2));
    let content_offset = read_be_i32(
        slice_subrange(source, n - CONTENT_OFFSET_FROM_END, n - CONTENT_OFFSET_FROM_END + 4),
    );
    let content_length = read_be_i32(
        slice_subrange(source, n - CONTENT_LENGTH_FROM_END, n - CONTENT_LENGTH_FROM_END + 4),
    );
    let sha1 = slice_to_vec(slice_subrange(source, n - SHA1_FROM_END, n - SHA1_FROM_END + SHA1_LEN));
    let t = Trailer { version, compression, flags, content_offset, content_length, sha1 };
    proof {
        assert(t@ == trailer_fields(source@));
    }
    Ok(t)
}

/// Bytes put before a source of at least 48 bytes change neither whether it
/// ends in the magic nor any field of its trailer.
pub proof fn trailer_ignores_prefix(prefix: Seq<u8>, s: Seq<u8>)
    requires
        s.len() >= TRAILER_LEN,
    ensures
        ends_in_magic(prefix + s) == ends_in_magic(s),
        trailer_fields(prefix + s) == trailer_fields(s),
{
    let t = prefix + s;
    let d = prefix.len() as int;
    assert(last_four(t) =~= last_four(s));
    assert(field(t, 8, 2) =~= field(s, 8, 2));
    assert(field(t, 12, 4) =~= field(s, 12, 4));
    assert(field(t, 16, 4) =~= field(s, 16, 4));
    assert(field(t, 48, 20) =~= field(s, 48, 20));
    assert(t[t.len() - 5] == s[s.len() - 5]);
    assert(t[t.len() - 6] == s[s.len() - 6]);
}

} // verus!
