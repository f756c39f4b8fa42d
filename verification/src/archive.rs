//! The zip archive of a publication, its entries found by URL.
//!
//! The archive is read by the `zip` crate from bytes in memory. Every
//! entry that is no directory gets the URL that its name resolves to
//! against a base URL, and is read through that URL.

use vstd::hash_map::StringHashMap;
use vstd::prelude::*;
use vstd::string::StrSliceExecFns;

use crate::address::{url_join, url_joined, url_str, url_text};
use crate::error::{ArchiveErr, UrlNotFoundErr};
use crate::text::chars_opt;

verus! {

/// `zip::ZipArchive`, an open archive over its byte source.
#[verifier::external_type_specification]
#[verifier::external_body]
#[verifier::reject_recursive_types(R)]
pub struct ExZipArchive<R>(zip::ZipArchive<R>);

/// How the zip reader failed.
#[derive(Clone, Copy, Debug)]
pub enum ZipFault {
    /// The byte source failed.
    Io(std::io::ErrorKind),
    /// The bytes are no archive that the reader can read.
    Invalid,
}

/// The bytes that an archive was opened on.
pub uninterp spec fn archive_bytes(archive: zip::ZipArchive<std::io::Cursor<Vec<u8>>>) -> Seq<u8>;

/// The names of an archive's entries in the order of their indices;
/// `None` for an entry whose name cannot be had.
pub uninterp spec fn archive_names(archive: zip::ZipArchive<std::io::Cursor<Vec<u8>>>) -> Seq<
    Option<Seq<char>>,
>;

/// The entry names of the archive that `bytes` hold, or how opening it
/// fails.
pub uninterp spec fn zip_listing(bytes: Seq<u8>) -> Result<Seq<Option<Seq<char>>>, ZipFault>;

/// The content of entry `index` of the archive that `bytes` hold, or how
/// reading it fails.
pub uninterp spec fn zip_entry(bytes: Seq<u8>, index: nat) -> Result<Seq<u8>, ZipFault>;

/// `text` with `to` in place of every `from`.
pub open spec fn replaced(text: Seq<char>, from: char, to: Seq<char>) -> Seq<char>
    decreases text.len(),
{
    if text.len() == 0 {
        Seq::empty()
    } else if text[0] == from {
        to + replaced(text.skip(1), from, to)
    } else {
        seq![text[0]] + replaced(text.skip(1), from, to)
    }
}

/// Calls `str::replace` with a character as the pattern, which replaces
/// every occurrence.
#[verifier::external_body]
fn replace_char(text: &str, from: char, to: &str) -> (r: String)
    ensures
        r@ == replaced(text@, from, to@),
{
    text.replace(from, to)
}

/// Calls `ZipArchive::new` on a cursor over `bytes`. The contract names
/// the entry names of the result, or the failure, by the bytes; of an
/// error it keeps only whether the byte source failed, and how.
#[verifier::external_body]
fn zip_open(bytes: Vec<u8>) -> (r: Result<zip::ZipArchive<std::io::Cursor<Vec<u8>>>, ZipFault>)
    ensures
        match r {
            Ok(archive) => archive_bytes(archive) == bytes@ && zip_listing(bytes@) == Ok::<
                Seq<Option<Seq<char>>>,
                ZipFault,
            >(archive_names(archive)),
            Err(fault) => zip_listing(bytes@) == Err::<Seq<Option<Seq<char>>>, ZipFault>(fault),
        },
{
    match zip::ZipArchive::new(std::io::Cursor::new(bytes)) {
        Ok(archive) => Ok(archive),
        Err(zip::result::ZipError::Io(e)) => Err(ZipFault::Io(e.kind())),
        Err(_) => Err(ZipFault::Invalid),
    }
}

/// Calls `ZipArchive::len`, the number of entries.
#[verifier::external_body]
fn zip_len(archive: &zip::ZipArchive<std::io::Cursor<Vec<u8>>>) -> (r: usize)
    ensures
        r == archive_names(*archive).len(),
{
    archive.len()
}

/// Calls `ZipArchive::name_for_index`, which gives nothing for an index
/// that is no entry's; a name that is an error counts as none.
#[verifier::external_body]
fn zip_name(archive: &zip::ZipArchive<std::io::Cursor<Vec<u8>>>, index: usize) -> (r: Option<String>)
    ensures
        chars_opt(r) == if index < archive_names(*archive).len() {
            archive_names(*archive)[index as int]
        } else {
            None
        },
{
    archive.name_for_index(index).and_then(|name| name.ok()).map(|name| name.into_owned())
}

/// Calls `ZipArchive::by_index` and reads the entry to its end. The
/// archive is as it was: the contract names the content, or the
/// failure, by the archive's bytes and the index.
#[verifier::external_body]
fn zip_read(archive: &mut zip::ZipArchive<std::io::Cursor<Vec<u8>>>, index: usize) -> (r: Result<
    Vec<u8>,
    ZipFault,
>)
    ensures
        archive_bytes(*final(archive)) == archive_bytes(*old(archive)),
        archive_names(*final(archive)) == archive_names(*old(archive)),
        match r {
            Ok(content) => zip_entry(archive_bytes(*old(archive)), index as nat) == Ok::<
                Seq<u8>,
                ZipFault,
            >(content@),
            Err(fault) => zip_entry(archive_bytes(*old(archive)), index as nat) == Err::<
                Seq<u8>,
                ZipFault,
            >(fault),
        },
{
    let mut content = Vec::new();
    match archive.by_index(index) {
        Ok(mut entry) => match std::io::Read::read_to_end(&mut entry, &mut content) {
            Ok(_) => Ok(content),
            Err(e) => Err(ZipFault::Io(e.kind())),
        },
        Err(zip::result::ZipError::Io(e)) => Err(ZipFault::Io(e.kind())),
        Err(_) => Err(ZipFault::Invalid),
    }
}

/// Why an archive cannot be opened.
#[derive(Clone, Copy, Debug)]
pub enum ArchiveFailure {
    Archive(ArchiveErr),
    Io(std::io::ErrorKind),
}

/// Why an entry cannot be read.
#[derive(Clone, Copy, Debug)]
pub enum ReadFailure {
    Io(std::io::ErrorKind),
    UrlNotFound(UrlNotFoundErr),
    /// The entry is there and the archive does not yield it.
    Archive(ArchiveErr),
}

/// The name of an entry as a path: a `/` in place of every backslash.
pub open spec fn entry_path(name: Seq<char>) -> Seq<char> {
    replaced(name, '\\', seq!['/'])
}

/// The URL of an entry named `name`: none for an entry without a name
/// and for a directory, whose path ends in `/`; otherwise what the path
/// resolves to against `base`, if it resolves.
pub open spec fn entry_url(name: Option<Seq<char>>, base: Seq<char>) -> Option<Seq<char>> {
    match name {
        None => None,
        Some(n) => if entry_path(n).len() > 0 && entry_path(n).last() == '/' {
            None
        } else {
            url_joined(base, entry_path(n))
        },
    }
}

/// The index of the first `upto` entries: each URL with the index of
/// the last entry that has it.
pub open spec fn indexed(names: Seq<Option<Seq<char>>>, base: Seq<char>, upto: int) -> Map<
    Seq<char>,
    usize,
>
    decreases upto,
{
    if upto <= 0 || upto > names.len() {
        Map::empty()
    } else {
        match entry_url(names[upto - 1], base) {
            Some(url) => indexed(names, base, upto - 1).insert(url, (upto - 1) as usize),
            None => indexed(names, base, upto - 1),
        }
    }
}

/// What an open archive is: its bytes, and the index of its entries by
/// URL.
pub struct ArchiveModel {
    pub bytes: Seq<u8>,
    pub index: Map<Seq<char>, usize>,
}

/// The archive that `bytes` hold, its entries under their URLs against
/// `base`.
pub open spec fn archive_of(bytes: Seq<u8>, base: Seq<char>) -> Result<ArchiveModel, ArchiveFailure> {
    match zip_listing(bytes) {
        Err(ZipFault::Io(kind)) => Err(ArchiveFailure::Io(kind)),
        Err(ZipFault::Invalid) => Err(ArchiveFailure::Archive(ArchiveErr)),
        Ok(names) => Ok(ArchiveModel { bytes, index: indexed(names, base, names.len() as int) }),
    }
}

impl ArchiveModel {
    /// The content of the entry at `url`.
    pub open spec fn entry(self, url: Seq<char>) -> Result<Seq<u8>, ReadFailure> {
        if !self.index.contains_key(url) {
            Err(ReadFailure::UrlNotFound(UrlNotFoundErr))
        } else {
            match zip_entry(self.bytes, self.index[url] as nat) {
                Ok(content) => Ok(content),
                Err(ZipFault::Io(kind)) => Err(ReadFailure::Io(kind)),
                Err(ZipFault::Invalid) => Err(ReadFailure::Archive(ArchiveErr)),
            }
        }
    }
}

/// An open archive.
pub struct EpubArchive {
    zip: zip::ZipArchive<std::io::Cursor<Vec<u8>>>,
    zip_indexes: StringHashMap<usize>,
}

impl View for EpubArchive {
    type V = ArchiveModel;

    closed spec fn view(&self) -> ArchiveModel {
        ArchiveModel { bytes: archive_bytes(self.zip), index: self.zip_indexes@ }
    }
}

/// The outcome of opening, the archive taken by its view.
pub open spec fn archive_outcome(r: Result<EpubArchive, ArchiveFailure>) -> Result<
    ArchiveModel,
    ArchiveFailure,
> {
    match r {
        Ok(a) => Ok(a@),
        Err(e) => Err(e),
    }
}

/// The outcome of reading, the content taken by its view.
pub open spec fn content_outcome(r: Result<Vec<u8>, ReadFailure>) -> Result<Seq<u8>, ReadFailure> {
    match r {
        Ok(c) => Ok(c@),
        Err(e) => Err(e),
    }
}

fn is_directory(path: &str) -> (r: bool)
    ensures
        r == (path@.len() > 0 && path@.last() == '/'),
{
    let n = path.unicode_len();
    n > 0 && path.get_char(n - 1) == '/'
}

impl EpubArchive {
    /// Opens the archive that `bytes` hold.
    pub fn new(bytes: Vec<u8>, base_url: &url::Url) -> (r: Result<EpubArchive, ArchiveFailure>)
        ensures
            archive_outcome(r) == archive_of(bytes@, url_text(*base_url)),
    {
        let zip = match zip_open(bytes) {
            Ok(zip) => zip,
            Err(ZipFault::Io(kind)) => {
                return Err(ArchiveFailure::Io(kind));
            },
            Err(ZipFault::Invalid) => {
                return Err(ArchiveFailure::Archive(ArchiveErr));
            },
        };
        let ghost names = archive_names(zip);
        let ghost base = url_text(*base_url);
        let mut zip_indexes: StringHashMap<usize> = StringHashMap::new();
        let n = zip_len(&zip);
        let mut i: usize = 0;
        while i < n
            invariant
                i <= n,
                n == names.len(),
                names == archive_names(zip),
                base == url_text(*base_url),
                zip_indexes@ == indexed(names, base, i as int),
            decreases n - i,
        {
            if let Some(name) = zip_name(&zip, i) {
                let path = replace_char(name.as_str(), '\\', "/");
                proof {
                    reveal_strlit("/");
                    assert("/"@ =~= seq!['/']);
                }
                if !is_directory(path.as_str()) {
                    if let Some(url) = url_join(base_url, path.as_str()) {
                        zip_indexes.insert(url_str(&url).to_owned(), i);
                    }
                }
            }
            i += 1;
        }
        Ok(EpubArchive { zip, zip_indexes })
    }

    /// Reads the entry at `u` to its end.
    pub fn get_reader(&mut self, u: &url::Url) -> (r: Result<Vec<u8>, ReadFailure>)
        ensures
            final(self)@ == old(self)@,
            content_outcome(r) == old(self)@.entry(url_text(*u)),
    {
        let index = match self.zip_indexes.get(url_str(u)) {
            Some(index) => *index,
            None => {
                return Err(ReadFailure::UrlNotFound(UrlNotFoundErr));
            },
        };
        match zip_read(&mut self.zip, index) {
            Ok(content) => Ok(content),
            Err(ZipFault::Io(kind)) => Err(ReadFailure::Io(kind)),
            Err(ZipFault::Invalid) => Err(ReadFailure::Archive(ArchiveErr)),
        }
    }

    /// Whether the archive has an entry at `u`.
    pub fn contains(&self, u: &url::Url) -> (r: bool)
        ensures
            r == self@.index.contains_key(url_text(*u)),
    {
        self.zip_indexes.contains_key(url_str(u))
    }
}

} // verus!
