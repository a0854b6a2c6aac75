use std::io::Write;

use bakeware::archive::{decompress_payload, extract_all, Compression};
use bakeware::error::Error;
use bakeware::newc::{read_entries, Entry, EntryKind};
use bakeware::trailer::{read_trailer, Trailer};

fn newc_entry(out: Vec<u8>, name: &str, mode: u32, content: &[u8]) -> Vec<u8> {
    let mut w = cpio::NewcBuilder::new(name)
        .mode(mode)
        .write(out, content.len() as u32);
    w.write_all(content).unwrap();
    w.finish().unwrap()
}

fn newc_archive(entries: &[(&str, u32, &[u8])]) -> Vec<u8> {
    let mut out = Vec::new();
    for (name, mode, content) in entries {
        out = newc_entry(out, name, *mode, content);
    }
    cpio::newc::trailer(out).unwrap()
}

fn zstd(data: &[u8]) -> Vec<u8> {
    ruzstd::encoding::compress_to_vec(data, ruzstd::encoding::CompressionLevel::Fastest)
}

fn trailer_bytes(
    version: u8,
    compression: u8,
    flags: u16,
    offset: i32,
    length: i32,
    sha1: [u8; 20],
) -> Vec<u8> {
    let mut t = Vec::new();
    t.extend_from_slice(&sha1);
    t.extend_from_slice(&[0u8; 12]);
    t.extend_from_slice(&length.to_be_bytes());
    t.extend_from_slice(&offset.to_be_bytes());
    t.extend_from_slice(&flags.to_be_bytes());
    t.push(compression);
    t.push(version);
    t.extend_from_slice(b"BAKE");
    assert_eq!(t.len(), 48);
    t
}

fn self_extracting(prefix: &[u8], compression: u8, entries: &[(&str, u32, &[u8])]) -> Vec<u8> {
    let payload = zstd(&newc_archive(entries));
    let mut blob = prefix.to_vec();
    blob.extend_from_slice(&payload);
    let t = trailer_bytes(
        1,
        compression,
        0,
        prefix.len() as i32,
        payload.len() as i32,
        [7u8; 20],
    );
    blob.extend_from_slice(&t);
    blob
}

fn digest() -> [u8; 20] {
    let mut d = [0u8; 20];
    for (i, b) in d.iter_mut().enumerate() {
        *b = (i * 13 + 1) as u8;
    }
    d
}

#[test]
fn trailer_fields_are_read_at_their_offsets() {
    let mut blob = vec![0xaau8; 5];
    blob.extend_from_slice(&trailer_bytes(3, 1, 0xbeef, 0x01020304, -2, digest()));
    let t = read_trailer(&blob).unwrap();
    assert_eq!(
        t,
        Trailer {
            version: 3,
            compression: 1,
            flags: 0xbeef,
            content_offset: 0x01020304,
            content_length: -2,
            sha1: digest().to_vec(),
        }
    );
}

#[test]
fn trailer_does_not_depend_on_prefix_length() {
    let tail = trailer_bytes(1, 1, 5, 100, 200, digest());
    let bare = read_trailer(&tail).unwrap();
    for len in [1usize, 17, 100, 4096] {
        let mut blob: Vec<u8> = (0..len).map(|i| (i * 31) as u8).collect();
        blob.extend_from_slice(&tail);
        assert_eq!(read_trailer(&blob).unwrap(), bare);
    }
}

#[test]
fn bad_magic_is_reported_with_the_bytes_found() {
    let mut blob = trailer_bytes(1, 1, 0, 0, 0, digest());
    let n = blob.len();
    blob[n - 1] = b'X';
    assert_eq!(
        read_trailer(&blob),
        Err(Error::BadMagic { actual: *b"BAKX" })
    );
    assert_eq!(
        read_trailer(b"hello"),
        Err(Error::BadMagic { actual: *b"ello" })
    );
}

#[test]
fn short_sources_are_truncated() {
    assert_eq!(read_trailer(b""), Err(Error::Truncated));
    assert_eq!(read_trailer(b"BAK"), Err(Error::Truncated));
    assert_eq!(read_trailer(b"0123456789BAKE"), Err(Error::Truncated));
}

#[test]
fn compression_codes() {
    assert_eq!(Compression::from_code(0), Compression::Uncompressed);
    assert_eq!(Compression::from_code(1), Compression::Zstd);
    assert_eq!(Compression::from_code(9), Compression::Unknown(9));
}

#[test]
fn two_entry_archive_behind_a_hundred_bytes() {
    let prefix: Vec<u8> = (0..100u32).map(|i| (i * 7 + 3) as u8).collect();
    let blob = self_extracting(
        &prefix,
        1,
        &[("data/", 0o40755, b""), ("data/hello.txt", 0o100644, b"hi")],
    );
    let t = read_trailer(&blob).unwrap();
    assert_eq!(t.content_offset, 100);
    assert_eq!(t.compression, 1);
    let es = extract_all(&blob, &t).unwrap();
    assert_eq!(es.len(), 2);
    assert_eq!(es[0].name, "data/");
    assert_eq!(es[0].mode, 0o40755);
    assert_eq!(es[0].kind(), EntryKind::Directory);
    assert!(es[0].creates_directory(false));
    assert!(!es[0].creates_directory(true));
    assert_eq!(es[1].name, "data/hello.txt");
    assert_eq!(es[1].mode, 0o100644);
    assert_eq!(es[1].kind(), EntryKind::File);
    assert!(!es[1].creates_directory(false));
    assert_eq!(es[1].content, b"hi".to_vec());
}

#[test]
fn round_trip_keeps_names_modes_and_contents() {
    let big: Vec<u8> = (0..5000u32).map(|i| (i % 251) as u8).collect();
    let set: Vec<(&str, u32, &[u8])> = vec![
        ("bin", 0o40700, b""),
        ("bin/run", 0o100755, b"#!/bin/sh\necho run\n"),
        ("lib", 0o40755, b""),
        ("lib/data.bin", 0o100600, &big),
        ("odd", 0o100644, b"abc"),
    ];
    let blob = self_extracting(b"MZ", 1, &set);
    let t = read_trailer(&blob).unwrap();
    let es = extract_all(&blob, &t).unwrap();
    assert_eq!(es.len(), set.len());
    for (e, (name, mode, content)) in es.iter().zip(set.iter()) {
        assert_eq!(e.name, *name);
        assert_eq!(e.mode, *mode);
        assert_eq!(e.file_size as usize, content.len());
        assert_eq!(e.content, content.to_vec());
        let kind = if content.is_empty() { EntryKind::Directory } else { EntryKind::File };
        assert_eq!(e.kind(), kind);
    }
}

#[test]
fn decoding_stops_at_the_terminator() {
    let mut archive = newc_archive(&[("a", 0o100644, b"one")]);
    archive = newc_entry(archive, "after", 0o100644, b"never seen");
    archive.extend_from_slice(b"\x00\xffgarbage that is no header");
    let es = read_entries(&archive).unwrap();
    assert_eq!(
        es,
        vec![Entry {
            name: "a".to_string(),
            mode: 0o100644,
            file_size: 3,
            content: b"one".to_vec(),
        }]
    );
}

#[test]
fn terminator_alone_gives_no_entries() {
    let mut archive = newc_archive(&[]);
    archive.extend_from_slice(&[0xffu8; 64]);
    assert_eq!(read_entries(&archive), Ok(vec![]));
}

#[test]
fn garbage_instead_of_a_header_is_malformed() {
    assert_eq!(read_entries(b"not a cpio archive at all"), Err(Error::MalformedEntry));
    assert_eq!(read_entries(b""), Err(Error::MalformedEntry));
    let archive = newc_entry(Vec::new(), "x", 0o100644, b"no terminator");
    assert_eq!(read_entries(&archive), Err(Error::MalformedEntry));
}

#[test]
fn unsupported_compression_fails_first() {
    for code in [0u8, 2, 255] {
        let blob = self_extracting(b"prefix", code, &[("f", 0o100644, b"x")]);
        let t = read_trailer(&blob).unwrap();
        assert_eq!(extract_all(&blob, &t), Err(Error::UnsupportedCompression { code }));
        let mut bad = t.clone();
        bad.content_offset = -1;
        assert_eq!(
            decompress_payload(&blob, &bad),
            Err(Error::UnsupportedCompression { code })
        );
    }
}

#[test]
fn offset_outside_the_source_is_refused() {
    let blob = self_extracting(b"prefix", 1, &[("f", 0o100644, b"x")]);
    let mut t = read_trailer(&blob).unwrap();
    t.content_offset = -1;
    assert_eq!(extract_all(&blob, &t), Err(Error::BadOffset { offset: -1 }));
    t.content_offset = blob.len() as i32 + 1;
    assert_eq!(
        extract_all(&blob, &t),
        Err(Error::BadOffset { offset: blob.len() as i32 + 1 })
    );
}

#[test]
fn payload_that_is_not_zstd_is_malformed() {
    let blob = self_extracting(b"prefix", 1, &[("f", 0o100644, b"x")]);
    let mut t = read_trailer(&blob).unwrap();
    t.content_offset = 0;
    assert_eq!(extract_all(&blob, &t), Err(Error::MalformedPayload));
}

#[test]
fn zstd_payload_without_an_archive_is_a_malformed_entry() {
    let mut blob = b"pre".to_vec();
    blob.extend_from_slice(&zstd(b"plain text, not an archive"));
    blob.extend_from_slice(&trailer_bytes(1, 1, 0, 3, 0, digest()));
    let t = read_trailer(&blob).unwrap();
    assert_eq!(extract_all(&blob, &t), Err(Error::MalformedEntry));
}

#[test]
fn decompression_yields_the_archive() {
    let archive = newc_archive(&[("f", 0o100644, b"content")]);
    let mut blob = b"xyz".to_vec();
    blob.extend_from_slice(&zstd(&archive));
    blob.extend_from_slice(&trailer_bytes(1, 1, 0, 3, 0, digest()));
    let t = read_trailer(&blob).unwrap();
    assert_eq!(decompress_payload(&blob, &t), Ok(archive));
}

#[test]
fn extracting_twice_gives_the_same_entries() {
    let blob = self_extracting(b"\x7fELF", 1, &[("d", 0o40755, b""), ("d/f", 0o100644, b"z")]);
    let t = read_trailer(&blob).unwrap();
    let first = extract_all(&blob, &t).unwrap();
    let second = extract_all(&blob, &t).unwrap();
    assert_eq!(first, second);
    assert!(!first[0].creates_directory(true));
}
