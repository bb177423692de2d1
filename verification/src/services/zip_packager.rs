//! The packager that archives a directory's files in the zip format.

use crate::error::{ConfigError, Error, ErrorView};
use crate::error_kind::PATH_CONVERSION_ERROR;
use std::io::Write;
use vstd::prelude::*;
use vstd::string::to_string_from_display_ensures;
use vstd::string::StringExecFns;

verus! {

/// An archive in the making: the writer of the `zip` crate over an in-memory stream.
/// Trusted: the struct is opaque to the verifier, which sees the writer only through
/// [`archive_entries`].
#[verifier::external_body]
pub struct ArchiveWriter {
    inner: zip::ZipWriter<std::io::Cursor<Vec<u8>>>,
}

/// The failure of std's input and output. Trusted: only that the type exists.
#[verifier::external_type_specification]
#[verifier::external_body]
pub struct ExIoError(std::io::Error);

/// The kinds of failure of std's input and output. Trusted: only that the type exists.
#[verifier::external_type_specification]
#[verifier::external_body]
pub struct ExIoErrorKind(std::io::ErrorKind);

/// Specifies `std::io::Error::kind`. Trusted: nothing is claimed of the kind.
pub assume_specification[ std::io::Error::kind ](error: &std::io::Error) -> (kind:
    std::io::ErrorKind)
;

/// The failure of the `zip` crate. Trusted: only that the type exists.
#[verifier::external_type_specification]
#[verifier::external_body]
pub struct ExZipError(zip::result::ZipError);

/// The files that were started in an archive writer so far, in order: each with its
/// name and the bytes written to it.
pub uninterp spec fn archive_entries(writer: ArchiveWriter) -> Seq<(Seq<char>, Seq<u8>)>;

/// Nothing has failed on an archive writer yet: every file that was started in it is
/// within what an archive without the large-file extension can hold, and the last of
/// them is still open for writing.
pub uninterp spec fn archive_intact(writer: ArchiveWriter) -> bool;

/// The bytes of the finished archive that holds the given files, stored without
/// compression.
pub uninterp spec fn archive_image(entries: Seq<(Seq<char>, Seq<u8>)>) -> Seq<u8>;

/// Calls `zip::ZipWriter::new` on an empty in-memory stream. Trusted: the new writer
/// holds no file, and nothing has failed on it.
#[verifier::external_body]
fn open_archive() -> (writer: ArchiveWriter)
    ensures
        archive_entries(writer) == Seq::<(Seq<char>, Seq<u8>)>::empty(),
        archive_intact(writer),
{
    ArchiveWriter { inner: zip::ZipWriter::new(std::io::Cursor::new(Vec::new())) }
}

/// Calls `zip::ZipWriter::start_file` with the stored (uncompressed) method. Trusted:
/// where it succeeds, a file of that name with no bytes yet is the writer's last; and
/// on a writer on which nothing has failed it succeeds, the stream being in memory,
/// and nothing has failed after it.
#[verifier::external_body]
fn start_entry(writer: &mut ArchiveWriter, name: &str) -> (started: Result<
    (),
    zip::result::ZipError,
>)
    ensures
        started is Ok ==> archive_entries(*final(writer)) == archive_entries(*old(writer)).push(
            (name@, Seq::<u8>::empty()),
        ),
        archive_intact(*old(writer)) ==> started is Ok && archive_intact(*final(writer)),
{
    let options = zip::write::FileOptions::default();
    writer.inner.start_file(name, options.compression_method(zip::CompressionMethod::Stored))
}

/// Calls `write_all` of the writer's `std::io::Write`. Trusted: where it succeeds on a
/// writer that holds a file, the bytes are appended to the last file; and on a writer
/// on which nothing has failed it succeeds if the last file, with these bytes, is no
/// longer than the largest `u32`, and nothing has failed after it.
#[verifier::external_body]
fn write_entry(writer: &mut ArchiveWriter, bytes: &[u8]) -> (written: Result<(), std::io::Error>)
    ensures
        written is Ok && archive_entries(*old(writer)).len() > 0 ==> {
            let before = archive_entries(*old(writer));
            archive_entries(*final(writer)) == before.update(
                before.len() - 1,
                (before.last().0, before.last().1 + bytes@),
            )
        },
        archive_intact(*old(writer)) && archive_entries(*old(writer)).len() > 0
            && archive_entries(*old(writer)).last().1.len() + bytes@.len() <= u32::MAX
            ==> written is Ok && archive_intact(*final(writer)),
{
    writer.inner.write_all(bytes)
}

/// Calls `zip::ZipWriter::finish` and takes the bytes out of the stream. Trusted:
/// where it succeeds, the bytes are the archive of the writer's files; and on a writer
/// on which nothing has failed it succeeds, the stream being in memory.
#[verifier::external_body]
fn close_archive(writer: ArchiveWriter) -> (closed: Result<Vec<u8>, zip::result::ZipError>)
    ensures
        closed matches Ok(bytes) ==> bytes@ == archive_image(archive_entries(writer)),
        archive_intact(writer) ==> closed is Ok,
{
    let mut writer = writer;
    match writer.inner.finish() {
        Ok(stream) => Ok(stream.into_inner()),
        Err(error) => Err(error),
    }
}

/// Calls the `From<ZipError>` that the `zip` crate gives `std::io::Error`. Trusted:
/// nothing is claimed of the result.
#[verifier::external_body]
fn into_io_failure(error: zip::result::ZipError) -> (failure: std::io::Error) {
    std::io::Error::from(error)
}

/// `error` is how the service reports `failure`: its kind is the text by which a kind
/// of failure of std's input and output shows itself, and its message is the text by
/// which `failure` shows itself.
pub open spec fn reports(failure: &std::io::Error, error: ErrorView) -> bool {
    exists|kind: std::io::ErrorKind, kind_text: String, message: String|
        #![trigger
            to_string_from_display_ensures::<std::io::ErrorKind>(&kind, kind_text),
            to_string_from_display_ensures::<std::io::Error>(failure, message)
        ]
        {
            &&& to_string_from_display_ensures::<std::io::ErrorKind>(&kind, kind_text)
            &&& to_string_from_display_ensures::<std::io::Error>(failure, message)
            &&& error == (ErrorView { kind: kind_text@, message: message@ })
        }
}

/// `error` reports some failure of std's input and output.
pub open spec fn is_io_report(error: ErrorView) -> bool {
    exists|failure: std::io::Error| #[trigger] reports(&failure, error)
}

/// A failure of std's input and output as the service reports it: under the text of
/// its kind, with its own text as the message.
fn io_failure(failure: &std::io::Error) -> (error: Error)
    ensures
        reports(failure, error@),
        is_io_report(error@),
{
    let kind = failure.kind();
    let kind_text = kind.to_string();
    let message = failure.to_string();
    let error = ConfigError::from_io(kind_text.as_str(), message.as_str()).0;
    assert(to_string_from_display_ensures::<std::io::ErrorKind>(&kind, kind_text)
        && to_string_from_display_ensures::<std::io::Error>(failure, message));
    assert(reports(failure, error@));
    error
}

/// One file to be archived.
#[derive(Debug, PartialEq)]
pub struct ArchiveEntry {
    /// The file's name inside the archive.
    pub name: String,
    pub contents: Vec<u8>,
}

/// The files to be archived as plain values.
pub open spec fn entry_views(entries: Seq<ArchiveEntry>) -> Seq<(Seq<char>, Seq<u8>)> {
    entries.map_values(|entry: ArchiveEntry| (entry.name@, entry.contents@))
}

/// Every one of the files can be archived: none is longer than the largest `u32`,
/// which is what an archive without the large-file extension holds of one file.
pub open spec fn all_fit(entries: Seq<ArchiveEntry>) -> bool {
    forall|index: int|
        0 <= index < entries.len() ==> (#[trigger] entries[index]).contents@.len() <= u32::MAX
}

/// The failure that stands for a source directory whose path is not text.
pub open spec fn unreadable_source() -> ErrorView {
    ErrorView {
        kind: PATH_CONVERSION_ERROR@,
        message: "failed to convert 'source_path' to string"@,
    }
}

#[derive(Default)]
pub struct ZipPackager {}

impl ZipPackager {
    /// The extension of the archives that this packager makes.
    pub fn extension(&self) -> (extension: String)
        ensures
            extension@ == "zip"@,
    {
        String::from_str("zip")
    }

    /// The archive of `entries`, in their order. It comes about whenever every file
    /// fits, and then holds exactly these files. If it does not come about, the failure
    /// of the writer's input and output is reported under its own kind.
    pub fn zip_directory(&self, entries: &Vec<ArchiveEntry>) -> (archive: Result<Vec<u8>, Error>)
        ensures
            all_fit(entries@) ==> archive is Ok,
            archive matches Ok(bytes) ==> bytes@ == archive_image(entry_views(entries@)),
            archive matches Err(error) ==> is_io_report(error@),
    {
        let mut writer = open_archive();
        let mut index: usize = 0;
        while index < entries.len()
            invariant
                index <= entries@.len(),
                archive_entries(writer) == entry_views(entries@).take(index as int),
                all_fit(entries@) ==> archive_intact(writer),
            decreases entries@.len() - index,
        {
            let entry = &entries[index];
            match start_entry(&mut writer, entry.name.as_str()) {
                Ok(()) => {},
                Err(error) => {
                    let failure = into_io_failure(error);
                    return Err(io_failure(&failure));
                },
            }
            match write_entry(&mut writer, entry.contents.as_slice()) {
                Ok(()) => {},
                Err(failure) => {
                    return Err(io_failure(&failure));
                },
            }
            assert(entry_views(entries@).take(index + 1) =~= entry_views(entries@).take(
                index as int,
            ).push((entry.name@, entry.contents@)));
            index += 1;
        }
        assert(entry_views(entries@).take(index as int) =~= entry_views(entries@));
        match close_archive(writer) {
            Ok(bytes) => Ok(bytes),
            Err(error) => {
                let failure = into_io_failure(error);
                Err(io_failure(&failure))
            },
        }
    }

    /// The archive of the directory at `source_path`, whose files are `entries`. A
    /// directory whose path is not text is not archived; any other is, whenever every
    /// file fits.
    pub fn package(&self, source_path: Option<&str>, entries: &Vec<ArchiveEntry>) -> (archive:
        Result<Vec<u8>, Error>)
        ensures
            source_path is None ==> archive is Err && archive->Err_0@ == unreadable_source(),
            source_path is Some && all_fit(entries@) ==> archive is Ok,
            archive matches Ok(bytes) ==> bytes@ == archive_image(entry_views(entries@)),
            source_path is Some ==> (archive matches Err(error) ==> is_io_report(error@)),
    {
        match source_path {
            Some(_) => self.zip_directory(entries),
            None => Err(
                Error::new(
                    String::from_str(PATH_CONVERSION_ERROR),
                    String::from_str("failed to convert 'source_path' to string"),
                ),
            ),
        }
    }
}

} // verus!
