use vstd::prelude::*;

use crate::error::Error;

verus! {

/// The name of the entry that ends an archive: `TRAILER!!!`.
pub open spec fn terminator_name() -> Seq<char> {
    seq!['T', 'R', 'A', 'I', 'L', 'E', 'R', '!', '!', '!']
}

/// Size of a newc entry header before the name.
pub const NEWC_HEADER_LEN: usize = 110;

/// What decoding one newc entry at the start of `s` yields: its name, mode,
/// declared size, content, and the bytes after it; or `None` where its header
/// cannot be decoded.
pub uninterp spec fn newc_decoded(s: Seq<u8>) -> Option<(Seq<char>, u32, u32, Seq<u8>, Seq<u8>)>;

/// One decoded archive entry.
pub struct EntryView {
    pub name: Seq<char>,
    pub mode: u32,
    pub file_size: u32,
    pub content: Seq<u8>,
}

/// One archive entry: a path relative to the extraction root, its permission
/// and type bits, its declared size and its content.
#[derive(Debug, Clone, PartialEq, Eq)]
pub struct Entry {
    pub name: String,
    pub mode: u32,
    pub file_size: u32,
    pub content: Vec<u8>,
}

impl View for Entry {
    type V = EntryView;

    open spec fn view(&self) -> EntryView {
        EntryView {
            name: self.name@,
            mode: self.mode,
            file_size: self.file_size,
            content: self.content@,
        }
    }
}

/// What an entry stands for on disk.
#[derive(Debug, Clone, Copy, PartialEq, Eq)]
pub enum EntryKind {
    Directory,
    File,
}

impl Entry {
    /// An entry of size zero marks a directory; any other is a regular file.
    pub fn kind(&self) -> (r: EntryKind)
        ensures
            r == (if self.file_size == 0 {
                EntryKind::Directory
            } else {
                EntryKind::File
            }),
    {
        if self.file_size == 0 {
            EntryKind::Directory
        } else {
            EntryKind::File
        }
    }

    /// Whether materialising this entry creates a directory, given whether
    /// its path already is one. An existing directory is left as it is.
    pub fn creates_directory(&self, already_a_directory: bool) -> (r: bool)
        ensures
            r == (self.file_size == 0 && !already_a_directory),
    {
        self.file_size == 0 && !already_a_directory
    }
}

/// The fields of one decoded header.
pub(crate) struct EntryHeader {
    pub(crate) name: String,
    pub(crate) mode: u32,
    pub(crate) file_size: u32,
    pub(crate) is_trailer: bool,
}

/// Relies on cpio's `NewcReader::new`, which reads one header (magic, the
/// hexadecimal fields, the NUL-terminated name and its padding) at the start
/// of `data`, on the `Entry` getters `name`, `mode`, `file_size` and
/// `is_trailer` (the name equals `TRAILER!!!`), and on `NewcReader::to_writer`,
/// which copies the content and skips its padding, handing back the rest.
/// The header alone takes 110 bytes.
#[verifier::external_body]
fn decode_entry<'a>(data: &'a [u8]) -> (r: Option<(EntryHeader, Vec<u8>, &'a [u8])>)
    ensures
        r is None <==> newc_decoded(data@) is None,
        r matches Some((h, c, rest)) ==> {
            &&& newc_decoded(data@) == Some((h.name@, h.mode, h.file_size, c@, rest@))
            &&& h.is_trailer == (h.name@ == terminator_name())
            &&& rest@.len() + NEWC_HEADER_LEN <= data@.len()
        },
{
    let reader = cpio::NewcReader::new(data).ok()?;
    let e = reader.entry();
    let h = EntryHeader {
        name: e.name().to_string(),
        mode: e.mode(),
        file_size: e.file_size(),
        is_trailer: e.is_trailer(),
    };
    let mut content = Vec::new();
    let rest = reader.to_writer(&mut content).ok()?;
    Some((h, content, rest))
}

/// The entries that archive `s` holds before its terminator, or `None` where
/// an entry cannot be decoded before the terminator is reached.
pub open spec fn entries_from(s: Seq<u8>) -> Option<Seq<EntryView>>
    decreases s.len(),
{
    match newc_decoded(s) {
        None => None,
        Some((name, mode, file_size, content, rest)) => {
            if name == terminator_name() {
                Some(Seq::empty())
            } else if rest.len() < s.len() {
                match entries_from(rest) {
                    Some(es) => Some(
                        seq![EntryView { name, mode, file_size, content }] + es,
                    ),
                    None => None,
                }
            } else {
                None
            }
        },
    }
}

/// `es` put before what `r` holds, where it holds something.
pub open spec fn prepend(es: Seq<EntryView>, r: Option<Seq<EntryView>>) -> Option<Seq<EntryView>> {
    match r {
        Some(more) => Some(es + more),
        None => None,
    }
}

/// The views of a sequence of entries.
pub open spec fn views(es: Seq<Entry>) -> Seq<EntryView> {
    es.map_values(|e: Entry| e@)
}

/// Decodes the entries of an uncompressed newc archive, one at a time, and
/// stops at the terminator entry; nothing after it is read.
pub fn read_entries(archive: &[u8]) -> (r: Result<Vec<Entry>, Error>)
    ensures
        r matches Ok(es) ==> entries_from(archive@) == Some(views(es@)),
        r is Err ==> r == Err::<Vec<Entry>, Error>(Error::MalformedEntry) && entries_from(
            archive@,
        ) is None,
{
    let mut out: Vec<Entry> = Vec::new();
    let mut cur: &[u8] = archive;
    proof {
        assert(views(out@) =~= Seq::<EntryView>::empty());
        assert(prepend(views(out@), entries_from(cur@)) =~= entries_from(archive@));
    }
    loop
        invariant
            entries_from(archive@) == prepend(views(out@), entries_from(cur@)),
        decreases cur@.len(),
    {
        match decode_entry(cur) {
            None => {
                return Err(Error::MalformedEntry);
            },
            Some((h, content, rest)) => {
                if h.is_trailer {
                    proof {
                        assert(views(out@) + Seq::<EntryView>::empty() =~= views(out@));
                    }
                    return Ok(out);
                }
                let ghost before = out@;
                let entry = Entry { name: h.name, mode: h.mode, file_size: h.file_size, content };
                proof {
                    let ev = EntryView {
                        name: entry.name@,
                        mode: entry.mode,
                        file_size: entry.file_size,
                        content: entry.content@,
                    };
                    assert(entry@ == ev);
                    match entries_from(rest@) {
                        Some(more) => {
                            assert(views(before.push(entry)) =~= views(before) + seq![ev]);
                            assert(views(before) + (seq![ev] + more) =~= views(before) + seq![
                                ev,
                            ] + more);
                        },
                        None => {},
                    }
                }
                out.push(entry);
                cur = rest;
            },
        }
    }
}

/// An archive whose first entry is the terminator holds no entries, whatever
/// follows the terminator.
pub proof fn terminator_first_means_empty(s: Seq<u8>)
    requires
        newc_decoded(s) matches Some(d) && d.0 == terminator_name(),
    ensures
        entries_from(s) == Some(Seq::<EntryView>::empty()),
{
}

/// Decoding stops at the terminator: no decoded entry is the terminator.
pub proof fn no_entry_is_terminator(s: Seq<u8>)
    ensures
        entries_from(s) matches Some(es) ==> forall|i: int|
            0 <= i < es.len() ==> #[trigger] es[i].name != terminator_name(),
    decreases s.len(),
{
    match newc_decoded(s) {
        None => {},
        Some((name, mode, file_size, content, rest)) => {
            if name != terminator_name() && rest.len() < s.len() {
                no_entry_is_terminator(rest);
                match entries_from(rest) {
                    Some(more) => {
                        let es = seq![EntryView { name, mode, file_size, content }] + more;
                        assert forall|i: int| 0 <= i < es.len() implies #[trigger] es[i].name
                            != terminator_name() by {
                            if i > 0 {
                                assert(es[i] == more[i - 1]);
                            }
                        }
                    },
                    None => {},
                }
            }
        },
    }
}

} // verus!
