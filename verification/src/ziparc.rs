//! The package substrate: reading the entries of a zip archive and writing a
//! new one, through the `zip` crate.
//!
//! The library's own logic sees the package as a sequence of named entries.

use std::io::Read;
use std::io::Write;
use vstd::prelude::*;

verus! {

#[verifier::external_type_specification]
#[verifier::external_body]
#[verifier::reject_recursive_types(R)]
pub struct ExZipArchive<R>(zip::read::ZipArchive<R>);

/// An archive writer under construction.  The writer itself is opaque; the
/// contracts speak of [`zip_written`], the entries written so far.
#[verifier::external_body]
pub struct PackageWriter {
    inner: zip::write::ZipWriter<std::io::Cursor<Vec<u8>>>,
}

/// The named entries that the archive holds, in stored order, each with its
/// uncompressed bytes.
pub uninterp spec fn zip_entries(z: zip::read::ZipArchive<std::io::Cursor<Vec<u8>>>) -> Seq<
    (Seq<char>, Seq<u8>),
>;

/// The named entries written so far into an archive writer.
pub uninterp spec fn zip_written(w: PackageWriter) -> Seq<(Seq<char>, Seq<u8>)>;

/// The archive bytes that the writer produces for an entry sequence, under
/// the fixed deflate, permission and timestamp policy used here.
pub uninterp spec fn zip_payload_of(entries: Seq<(Seq<char>, Seq<u8>)>) -> Seq<u8>;

/// The entries of the archive that the bytes hold, or nothing when they are
/// no readable archive; the result depends on the bytes alone.
pub uninterp spec fn zip_entries_of(bytes: Seq<u8>) -> Option<Seq<(Seq<char>, Seq<u8>)>>;

/// Relies on zip::read::ZipArchive::new: the archive read out of the bytes,
/// or nothing when they are no readable archive.
#[verifier::external_body]
pub(crate) fn zip_open(bytes: Vec<u8>) -> (r: Option<
    zip::read::ZipArchive<std::io::Cursor<Vec<u8>>>,
>)
    ensures
        match r {
            Some(z) => zip_entries_of(bytes@) == Some(zip_entries(z)),
            None => zip_entries_of(bytes@) is None,
        },
{
    zip::read::ZipArchive::new(std::io::Cursor::new(bytes)).ok()
}

/// Relies on zip::read::ZipArchive::len: the number of entries.
#[verifier::external_body]
pub(crate) fn zip_len(z: &zip::read::ZipArchive<std::io::Cursor<Vec<u8>>>) -> (r: usize)
    ensures
        r == zip_entries(*z).len(),
{
    z.len()
}

/// Relies on zip::read::ZipArchive::by_index, zip::read::ZipFile::name and
/// std::io::Read::read_to_end: the name and uncompressed bytes of one entry.
/// Reading moves the archive's cursor but not its contents.
#[verifier::external_body]
pub(crate) fn zip_entry_at(z: &mut zip::read::ZipArchive<std::io::Cursor<Vec<u8>>>, i: usize) -> (r:
    Option<(String, Vec<u8>)>)
    requires
        i < zip_entries(*old(z)).len(),
    ensures
        zip_entries(*final (z)) == zip_entries(*old(z)),
        match r {
            Some(e) => (e.0@, e.1@) == zip_entries(*old(z))[i as int],
            None => true,
        },
{
    match z.by_index(i) {
        Ok(mut f) => {
            let name = f.name().to_owned();
            let mut buf: Vec<u8> = Vec::new();
            match f.read_to_end(&mut buf) {
                Ok(_) => Some((name, buf)),
                Err(_) => None,
            }
        },
        Err(_) => None,
    }
}

/// Relies on zip::write::ZipWriter::new: a fresh writer holds nothing.
#[verifier::external_body]
pub(crate) fn new_zip_writer() -> (w: PackageWriter)
    ensures
        zip_written(w) == Seq::<(Seq<char>, Seq<u8>)>::empty(),
{
    PackageWriter { inner: zip::write::ZipWriter::new(std::io::Cursor::new(Vec::new())) }
}

/// Relies on zip::write::ZipWriter::start_file and
/// std::io::Write::write_all: on success the named entry is appended, stored
/// deflated with fixed permissions and a fixed timestamp.
#[verifier::external_body]
pub(crate) fn zip_add_entry(w: &mut PackageWriter, name: &str, bytes: &[u8]) -> (ok: bool)
    ensures
        ok ==> zip_written(*final (w)) == zip_written(*old(w)).push((name@, bytes@)),
{
    let options = zip::write::SimpleFileOptions::default().compression_method(
        zip::CompressionMethod::Deflated,
    ).unix_permissions(0o755).last_modified_time(zip::DateTime::default());
    if w.inner.start_file(name, options).is_err() {
        return false;
    }
    w.inner.write_all(bytes).is_ok()
}

/// Relies on zip::write::ZipWriter::finish: the archive bytes holding
/// exactly the entries written, a function of those entries under the fixed
/// entry policy above; reading those bytes back yields the same entries.
#[verifier::external_body]
pub(crate) fn zip_finish(w: PackageWriter) -> (r: Option<Vec<u8>>)
    ensures
        match r {
            Some(bytes) => {
                &&& bytes@ == zip_payload_of(zip_written(w))
                &&& zip_entries_of(bytes@) == Some(zip_written(w))
            },
            None => true,
        },
{
    match w.inner.finish() {
        Ok(cursor) => Some(cursor.into_inner()),
        Err(_) => None,
    }
}

} // verus!
