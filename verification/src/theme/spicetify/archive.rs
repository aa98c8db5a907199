//! Unpacking a skin from a ZIP archive held in memory.
//!
//! The archive is read by the `zip` crate. What it finds in given bytes is not
//! written out here: the entries that it finds have a name, and the functions
//! that call it promise that name's value. Which entries belong to a skin, and
//! where each is written, is decided here.

use crate::error::{Error, UnhandledError};
use crate::path::{file_name, join, path_file_name, path_join};
use crate::text::{contains, str_contains};
use crate::theme::spicetify::{Spicetify, ThemeSpicetify};
use std::io::Cursor;
use std::io::Error as IoError;
use std::io::Read;
use vstd::prelude::*;
use zip::result::ZipError;
use zip::ZipArchive;

verus! {

#[verifier::external_type_specification]
#[verifier::external_body]
#[verifier::reject_recursive_types(R)]
pub struct ExZipArchive<R>(ZipArchive<R>);

#[verifier::external_type_specification]
#[verifier::external_body]
#[verifier::reject_recursive_types(T)]
pub struct ExCursor<T>(Cursor<T>);

/// The entries of an opened archive, in the order of its directory. Of each
/// entry: its name, or none where the entry cannot be opened or its name
/// cannot be decoded; and its content unpacked, or none where the entry
/// cannot be opened or its content cannot be unpacked.
pub uninterp spec fn archive_entries(archive: ZipArchive<Cursor<Vec<u8>>>) -> Seq<
    (Option<Seq<char>>, Option<Seq<u8>>),
>;

/// The entries that `ZipArchive::new` finds in `bytes`, or none where it
/// finds no archive in them.
pub uninterp spec fn zip_directory(bytes: Seq<u8>) -> Option<
    Seq<(Option<Seq<char>>, Option<Seq<u8>>)>,
>;

/// Calls `zip::ZipArchive::new` on the bytes, which reads the archive's
/// directory from them and nothing else: the archive that comes back holds
/// the entries that `zip_directory` names for the bytes, and an error comes
/// back exactly where it names none.
#[verifier::external_body]
fn open_archive(bytes: Vec<u8>) -> (r: Result<ZipArchive<Cursor<Vec<u8>>>, ZipError>)
    ensures
        match r {
            Ok(archive) => zip_directory(bytes@) == Some(archive_entries(archive)),
            Err(_) => zip_directory(bytes@) is None,
        },
{
    ZipArchive::new(Cursor::new(bytes))
}

/// Calls `zip::ZipArchive::len`: the number of entries in the directory.
#[verifier::external_body]
fn archive_len(archive: &ZipArchive<Cursor<Vec<u8>>>) -> (r: usize)
    ensures
        r == archive_entries(*archive).len(),
{
    archive.len()
}

/// Calls `zip::ZipArchive::by_index` and, on the entry, `name`. Opening an
/// entry moves the reader and leaves the directory as it was, so the archive
/// holds the same entries afterwards. The name comes back where the entry
/// opens and its name decodes; else the error of the call that failed.
#[verifier::external_body]
fn entry_name(archive: &mut ZipArchive<Cursor<Vec<u8>>>, index: usize) -> (r: Result<
    String,
    ZipError,
>)
    requires
        index < archive_entries(*old(archive)).len(),
    ensures
        archive_entries(*final(archive)) == archive_entries(*old(archive)),
        match r {
            Ok(name) => archive_entries(*old(archive))[index as int].0 == Some(name@),
            Err(_) => archive_entries(*old(archive))[index as int].0 is None,
        },
{
    let file = archive.by_index(index)?;
    let name = file.name()?;
    Ok(name.into_owned())
}

/// Calls `zip::ZipArchive::by_index` and reads the entry to its end with
/// `std::io::Read::read_to_end`, which unpacks it. The outer result is that of
/// opening the entry, the inner one that of reading it. An entry whose name
/// could be read opens again, since nothing in the directory has changed.
#[verifier::external_body]
fn entry_data(archive: &mut ZipArchive<Cursor<Vec<u8>>>, index: usize) -> (r: Result<
    Result<Vec<u8>, IoError>,
    ZipError,
>)
    requires
        index < archive_entries(*old(archive)).len(),
    ensures
        archive_entries(*final(archive)) == archive_entries(*old(archive)),
        match r {
            Ok(Ok(data)) => archive_entries(*old(archive))[index as int].1 == Some(data@),
            Ok(Err(_)) => archive_entries(*old(archive))[index as int].1 is None,
            Err(_) => {
                &&& archive_entries(*old(archive))[index as int].0 is None
                &&& archive_entries(*old(archive))[index as int].1 is None
            },
        },
{
    let mut file = archive.by_index(index)?;
    let mut data = Vec::new();
    match file.read_to_end(&mut data) {
        Ok(_) => Ok(Ok(data)),
        Err(e) => Ok(Err(e)),
    }
}

/// A file to write: where, and what.
#[derive(Debug)]
pub struct ThemeFile {
    pub path: String,
    pub data: Vec<u8>,
}

/// The paths and contents of a sequence of files.
pub open spec fn files_view(files: Seq<ThemeFile>) -> Seq<(Seq<char>, Seq<u8>)> {
    Seq::new(files.len(), |i: int| (files[i].path@, files[i].data@))
}

/// Whether an archive's entry belongs to the skin `theme_name`: its name
/// holds the skin's name and the name of one of the files that make a skin.
pub open spec fn is_theme_file(entry_name: Seq<char>, theme_name: Seq<char>) -> bool {
    &&& contains(entry_name, theme_name)
    &&& (contains(entry_name, "user.css"@) || contains(entry_name, "color.ini"@) || contains(
        entry_name,
        "theme.js"@,
    ))
}

/// Why a skin could not be unpacked.
pub enum UnpackFailure {
    /// An entry could not be opened, or its name not decoded.
    Entry,
    /// An entry of the skin ends in no file name.
    Unnamed,
    /// The content of an entry of the skin could not be unpacked.
    Content,
}

/// What one entry adds to the files unpacked so far, into `folder`. An entry
/// that does not belong to the skin adds nothing, and its content is not
/// looked at. One that does is written under its own file name, directly in
/// `folder`.
pub open spec fn unpack_entry(
    files: Seq<(Seq<char>, Seq<u8>)>,
    entry: (Option<Seq<char>>, Option<Seq<u8>>),
    theme_name: Seq<char>,
    folder: Seq<char>,
) -> Result<Seq<(Seq<char>, Seq<u8>)>, UnpackFailure> {
    match entry.0 {
        None => Err(UnpackFailure::Entry),
        Some(name) => if !is_theme_file(name, theme_name) {
            Ok(files)
        } else {
            match path_file_name(name) {
                None => Err(UnpackFailure::Unnamed),
                Some(base) => match entry.1 {
                    None => Err(UnpackFailure::Content),
                    Some(data) => Ok(files.push((path_join(folder, base), data))),
                },
            }
        },
    }
}

/// The files of the skin `theme_name` among `entries`, to be written into
/// `folder`, in the order of the entries; or the first failure on the way.
pub open spec fn unpack(
    entries: Seq<(Option<Seq<char>>, Option<Seq<u8>>)>,
    theme_name: Seq<char>,
    folder: Seq<char>,
) -> Result<Seq<(Seq<char>, Seq<u8>)>, UnpackFailure>
    decreases entries.len(),
{
    if entries.len() == 0 {
        Ok(Seq::empty())
    } else {
        match unpack(entries.drop_last(), theme_name, folder) {
            Err(failure) => Err(failure),
            Ok(files) => unpack_entry(files, entries.last(), theme_name, folder),
        }
    }
}

/// Whether what `download_theme` returns is what unpacking gives.
pub open spec fn unpacked_as(
    outcome: Result<Seq<(Seq<char>, Seq<u8>)>, UnpackFailure>,
    r: Result<Vec<ThemeFile>, Error>,
) -> bool {
    match outcome {
        Ok(files) => r matches Ok(written) && files_view(written@) == files,
        Err(UnpackFailure::Entry) => r matches Err(Error::UnhandledError(UnhandledError::Zip(_))),
        Err(UnpackFailure::Unnamed) => r matches Err(
            Error::UnhandledError(UnhandledError::FailedToDownloadTheme),
        ),
        Err(UnpackFailure::Content) => r matches Err(
            Error::UnhandledError(UnhandledError::IOError(_)),
        ),
    }
}

/// Whether an archive's entry belongs to the skin `theme_name`.
pub fn is_theme_file_name(entry_name: &str, theme_name: &str) -> (r: bool)
    ensures
        r == is_theme_file(entry_name@, theme_name@),
{
    str_contains(entry_name, theme_name) && (str_contains(entry_name, "user.css") || str_contains(
        entry_name,
        "color.ini",
    ) || str_contains(entry_name, "theme.js"))
}

impl ThemeSpicetify {
    /// The address to fetch the skin's archive from. A theme that gives none
    /// cannot have its skin fetched.
    pub fn download_url(&self) -> (r: Result<String, Error>)
        ensures
            match r {
                Ok(url) => self.url matches Some(given) && url@ == given@,
                Err(e) => self.url is None && e matches Error::UnhandledError(
                    UnhandledError::FailedToDownloadTheme,
                ),
            },
    {
        match &self.url {
            Some(url) => Ok(url.clone()),
            None => Err(Error::UnhandledError(UnhandledError::FailedToDownloadTheme)),
        }
    }
}

impl Spicetify {
    /// The files to write for the skin of `theme`, out of the archive that
    /// was fetched for it: each entry of the archive that belongs to the
    /// skin, under its own file name, directly in the skin's folder.
    ///
    /// Bytes that hold no archive, and an entry that cannot be opened or
    /// named, give a `Zip` failure; an entry of the skin whose content cannot
    /// be unpacked gives an `IOError` failure; an entry of the skin that ends
    /// in no file name gives `FailedToDownloadTheme`. The first failure in
    /// the order of the entries is the one returned, and nothing is to be
    /// written then.
    pub fn download_theme(&self, theme: &ThemeSpicetify, archive: Vec<u8>) -> (r: Result<
        Vec<ThemeFile>,
        Error,
    >)
        ensures
            match zip_directory(archive@) {
                None => r matches Err(Error::UnhandledError(UnhandledError::Zip(_))),
                Some(entries) => unpacked_as(
                    unpack(entries, theme.name@, self.spec_theme_path(theme.name@)),
                    r,
                ),
            },
    {
        let folder = self.get_theme_path(theme.name.as_str());
        let mut zip = match open_archive(archive) {
            Ok(zip) => zip,
            Err(e) => {
                return Err(Error::UnhandledError(UnhandledError::Zip(e)));
            },
        };
        let ghost entries = archive_entries(zip);
        let count = archive_len(&zip);
        let mut files: Vec<ThemeFile> = Vec::new();
        let mut i: usize = 0;
        assert(entries.take(0) =~= Seq::empty());
        assert(files_view(files@) =~= Seq::empty());
        while i < count
            invariant
                i <= count,
                count == entries.len(),
                archive_entries(zip) == entries,
                zip_directory(archive@) == Some(entries),
                folder@ == self.spec_theme_path(theme.name@),
                unpack(entries.take(i as int), theme.name@, folder@) == Ok::<
                    Seq<(Seq<char>, Seq<u8>)>,
                    UnpackFailure,
                >(files_view(files@)),
            decreases count - i,
        {
            let ghost before = files_view(files@);
            proof {
                let next = entries.take(i + 1);
                assert(next.drop_last() =~= entries.take(i as int));
                assert(next.last() == entries[i as int]);
            }
            let name = match entry_name(&mut zip, i) {
                Ok(name) => name,
                Err(e) => {
                    proof {
                        lemma_failure_stays(entries, i + 1, theme.name@, folder@);
                    }
                    return Err(Error::UnhandledError(UnhandledError::Zip(e)));
                },
            };
            if is_theme_file_name(name.as_str(), theme.name.as_str()) {
                let base = match file_name(name.as_str()) {
                    Some(base) => base,
                    None => {
                        proof {
                            lemma_failure_stays(entries, i + 1, theme.name@, folder@);
                        }
                        return Err(Error::UnhandledError(UnhandledError::FailedToDownloadTheme));
                    },
                };
                let data = match entry_data(&mut zip, i) {
                    Ok(Ok(data)) => data,
                    Ok(Err(e)) => {
                        proof {
                            lemma_failure_stays(entries, i + 1, theme.name@, folder@);
                        }
                        return Err(Error::UnhandledError(UnhandledError::IOError(e)));
                    },
                    Err(e) => {
                        return Err(Error::UnhandledError(UnhandledError::Zip(e)));
                    },
                };
                let path = join(folder.as_str(), base.as_str());
                files.push(ThemeFile { path, data });
                assert(files_view(files@) =~= before.push((path_join(folder@, base@), data@)));
            }
            i += 1;
        }
        assert(entries.take(i as int) =~= entries);
        Ok(files)
    }
}

/// Once unpacking has failed on the first entries, it fails in the same way
/// on all of them.
proof fn lemma_failure_stays(
    entries: Seq<(Option<Seq<char>>, Option<Seq<u8>>)>,
    k: int,
    theme_name: Seq<char>,
    folder: Seq<char>,
)
    requires
        0 <= k <= entries.len(),
        unpack(entries.take(k), theme_name, folder) is Err,
    ensures
        unpack(entries, theme_name, folder) == unpack(entries.take(k), theme_name, folder),
    decreases entries.len() - k,
{
    if k == entries.len() {
        assert(entries.take(k) =~= entries);
    } else {
        let next = entries.take(k + 1);
        assert(next.drop_last() =~= entries.take(k));
        lemma_failure_stays(entries, k + 1, theme_name, folder);
    }
}

} // verus!
