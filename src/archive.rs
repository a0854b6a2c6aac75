use vstd::prelude::*;
use vstd::slice::slice_subrange;

use crate::error::Error;
use crate::newc::{entries_from, read_entries, views, Entry, EntryView};
use crate::trailer::{Trailer, TrailerView};

verus! {

/// Compression code of a payload stored as is.
pub const COMPRESSION_NONE: u8 = 0;

/// Compression code of a zstd payload.
pub const COMPRESSION_ZSTD: u8 = 1;

/// How the payload is compressed, as named by the trailer's code.
#[derive(Debug, Clone, Copy, PartialEq, Eq)]
pub enum Compression {
    Uncompressed,
    Zstd,
    Unknown(u8),
}

/// The compression that `code` names.
pub open spec fn compression_of(code: u8) -> Compression {
    if code == COMPRESSION_NONE {
        Compression::Uncompressed
    } else if code == COMPRESSION_ZSTD {
        Compression::Zstd
    } else {
        Compression::Unknown(code)
    }
}

impl Compression {
    /// The compression that `code` names.
    pub fn from_code(code: u8) -> (r: Compression)
        ensures
            r == compression_of(code),
    {
        if code == COMPRESSION_NONE {
            Compression::Uncompressed
        } else if code == COMPRESSION_ZSTD {
            Compression::Zstd
        } else {
            Compression::Unknown(code)
        }
    }
}

/// What decoding the single zstd frame at the start of `s` yields, or `None`
/// where the frame cannot be decoded.
pub uninterp spec fn zstd_decoded(s: Seq<u8>) -> Option<Seq<u8>>;

/// Relies on ruzstd's `StreamingDecoder` (`new`, then `read_to_end` through
/// its `Read` impl): decodes the one frame that `data` starts with, and fails
/// where the frame is malformed. Bytes after the frame are not read.
#[verifier::external_body]
fn decode_zstd(data: &[u8]) -> (r: Option<Vec<u8>>)
    ensures
        r is None <==> zstd_decoded(data@) is None,
        r matches Some(v) ==> zstd_decoded(data@) == Some(v@),
{
    let mut decoder = ruzstd::decoding::StreamingDecoder::new(data).ok()?;
    let mut out = Vec::new();
    std::io::Read::read_to_end(&mut decoder, &mut out).ok()?;
    Some(out)
}

/// The decompressed payload that `source` holds according to trailer `t`.
pub open spec fn payload_spec(source: Seq<u8>, t: TrailerView) -> Result<Seq<u8>, Error> {
    if t.compression != COMPRESSION_ZSTD {
        Err(Error::UnsupportedCompression { code: t.compression })
    } else if t.content_offset < 0 || t.content_offset > source.len() {
        Err(Error::BadOffset { offset: t.content_offset as i32 })
    } else {
        match zstd_decoded(source.subrange(t.content_offset, source.len() as int)) {
            Some(p) => Ok(p),
            None => Err(Error::MalformedPayload),
        }
    }
}

/// Decompresses the payload that starts at the trailer's content offset.
/// Only zstd is decoded; any other code is refused before anything is read.
pub fn decompress_payload(source: &[u8], trailer: &Trailer) -> (r: Result<Vec<u8>, Error>)
    ensures
        r matches Ok(v) ==> payload_spec(source@, trailer@) == Ok::<Seq<u8>, Error>(v@),
        r matches Err(e) ==> payload_spec(source@, trailer@) == Err::<Seq<u8>, Error>(e),
{
    match Compression::from_code(trailer.compression) {
        Compression::Zstd => {},
        _ => {
            return Err(Error::UnsupportedCompression { code: trailer.compression });
        },
    }
    let offset = trailer.content_offset;
    if offset < 0 || offset as usize > source.len() {
        return Err(Error::BadOffset { offset });
    }
    let compressed = slice_subrange(source, offset as usize, source.len());
    match decode_zstd(compressed) {
        Some(v) => Ok(v),
        None => Err(Error::MalformedPayload),
    }
}

/// The entries that `source` holds according to trailer `t`.
pub open spec fn extract_spec(source: Seq<u8>, t: TrailerView) -> Result<Seq<EntryView>, Error> {
    match payload_spec(source, t) {
        Err(e) => Err(e),
        Ok(p) => match entries_from(p) {
            Some(es) => Ok(es),
            None => Err(Error::MalformedEntry),
        },
    }
}

/// Decompresses the payload that `trailer` locates in `source` and decodes
/// its entries, in payload order, up to the terminator.
pub fn extract_all(source: &[u8], trailer: &Trailer) -> (r: Result<Vec<Entry>, Error>)
    ensures
        r matches Ok(es) ==> extract_spec(source@, trailer@) == Ok::<Seq<EntryView>, Error>(
            views(es@),
        ),
        r matches Err(e) ==> extract_spec(source@, trailer@) == Err::<Seq<EntryView>, Error>(e),
{
    let payload = decompress_payload(source, trailer)?;
    read_entries(payload.as_slice())
}

/// A trailer that names any compression but zstd makes extraction fail with
/// `UnsupportedCompression`, whatever the source holds: nothing is decoded,
/// so nothing can be written.
pub proof fn unsupported_compression_always_fails(source: Seq<u8>, t: TrailerView)
    requires
        t.compression != COMPRESSION_ZSTD,
    ensures
        extract_spec(source, t) == Err::<Seq<EntryView>, Error>(
            Error::UnsupportedCompression { code: t.compression },
        ),
{
}

} // verus!
