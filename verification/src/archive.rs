//! Packing named files into one compressed archive.
//!
//! The archive format and the compression are the work of the `tar` and
//! `flate2` crates. What they produce, and whether they take what they are
//! given, is named here, so that the rest of the crate can say which files,
//! under which names, an archive was made from, and when there is one.

use std::io::Write;
use vstd::prelude::*;
use crate::license::is_filename_safe;

verus! {

/// The error of the standard library's input and output, which the archive
/// writer and the compressor report. It is carried, never looked into.
#[verifier::external_type_specification]
#[verifier::external_body]
pub struct ExIoError(std::io::Error);

/// An archive that is being built in memory.
///
/// Trusted: holds a `tar::Builder` that writes into a vector. Verus sees
/// nothing of it but what [`written`] names.
#[verifier::external_body]
pub struct Archive {
    builder: tar::Builder<Vec<u8>>,
}

/// The permission bits that every file in an archive is given: the owner
/// reads and writes, everybody else reads.
pub const FILE_MODE: u32 = 0o644;

/// The bytes that have been written to an archive so far.
pub uninterp spec fn written(archive: Archive) -> Seq<u8>;

/// The bytes that stand for one file in an archive: its header, after an
/// entry for its name where the name is too long for the header, and its
/// contents, padded to whole blocks.
pub uninterp spec fn file_entry(mode: u32, path: Seq<char>, data: Seq<u8>) -> Seq<u8>;

/// Whether the archive writer takes a file with this mode, path and contents.
/// It refuses paths that it cannot store, such as the empty path.
pub uninterp spec fn accepts_entry(mode: u32, path: Seq<char>, data: Seq<u8>) -> bool;

/// Whether the archive writer closes an archive that holds the bytes
/// `written`.
pub uninterp spec fn closes_archive(written: Seq<u8>) -> bool;

/// The gzip stream that holds `data`, compressed at the default level.
pub uninterp spec fn gzip_stream(data: Seq<u8>) -> Seq<u8>;

/// Whether the compressor takes `data`.
pub uninterp spec fn compresses(data: Seq<u8>) -> bool;

/// What ends an archive: two blocks of zero bytes.
pub open spec fn end_of_archive() -> Seq<u8> {
    Seq::new(1024, |i: int| 0u8)
}

/// A file that goes into an archive: its name and its contents.
#[derive(Debug, Clone)]
pub struct NamedFile {
    pub name: String,
    pub data: Vec<u8>,
}

impl DeepView for NamedFile {
    type V = (Seq<char>, Seq<u8>);

    open spec fn deep_view(&self) -> (Seq<char>, Seq<u8>) {
        (self.name@, self.data@)
    }
}

/// The entries of the given files, one after the other.
pub open spec fn file_entries(files: Seq<(Seq<char>, Seq<u8>)>) -> Seq<u8>
    decreases files.len(),
{
    if files.len() == 0 {
        Seq::empty()
    } else {
        file_entries(files.drop_last()) + file_entry(FILE_MODE, files.last().0, files.last().1)
    }
}

/// The archive that holds exactly the given files, in their order: their
/// entries and the end of the archive.
pub open spec fn archive_of(files: Seq<(Seq<char>, Seq<u8>)>) -> Seq<u8> {
    file_entries(files) + end_of_archive()
}

/// Whether the archive writer takes every one of the given files.
pub open spec fn accepts_entries(files: Seq<(Seq<char>, Seq<u8>)>) -> bool {
    forall|i: int|
        0 <= i < files.len() ==> accepts_entry(FILE_MODE, (#[trigger] files[i]).0, files[i].1)
}

/// Whether the given files can be packed: the archive writer takes each of
/// them and closes the archive after the last.
pub open spec fn packs(files: Seq<(Seq<char>, Seq<u8>)>) -> bool {
    accepts_entries(files) && closes_archive(file_entries(files))
}

/// The gzip stream of `data`, where the compressor takes it.
pub open spec fn gzipped(data: Seq<u8>) -> Option<Seq<u8>> {
    if compresses(data) {
        Some(gzip_stream(data))
    } else {
        None
    }
}

/// The archive of the given files, where they can be packed.
pub open spec fn packed(files: Seq<(Seq<char>, Seq<u8>)>) -> Option<Seq<u8>> {
    if packs(files) {
        Some(archive_of(files))
    } else {
        None
    }
}

/// Whether a name is made of characters that are safe in a file name.
pub open spec fn is_safe_filename(name: Seq<char>) -> bool {
    forall|i: int| 0 <= i < name.len() ==> is_filename_safe(#[trigger] name[i])
}

/// Starts an archive in memory.
///
/// Trusted: stands for `tar::Builder::new`, which stores the writer it is
/// given, here an empty vector, and writes nothing.
#[verifier::external_body]
pub(crate) fn new_archive() -> (archive: Archive)
    ensures
        written(archive) == Seq::<u8>::empty(),
{
    Archive { builder: tar::Builder::new(Vec::new()) }
}

/// Adds one file to an archive.
///
/// Trusted: stands for `tar::Builder::append_data`, called with a fresh GNU
/// header that has the size of `data`, the given mode and its checksum set.
/// The writer is a vector, so nothing but the arguments decides the outcome.
/// The contract claims that, for a path made of ASCII letters, digits,
/// hyphens, underscores and dots, whether the call succeeds depends on the
/// mode, the path and the contents alone, and that, where it succeeds, so
/// does what it wrote after the earlier bytes. It claims nothing of what was
/// written where the call fails.
#[verifier::external_body]
pub(crate) fn append_file(
    archive: &mut Archive,
    mode: u32,
    path: &str,
    data: &[u8],
) -> (r: Result<(), std::io::Error>)
    requires
        is_safe_filename(path@),
    ensures
        r is Ok <==> accepts_entry(mode, path@, data@),
        r is Ok ==> written(*final(archive)) == written(*old(archive)) + file_entry(
            mode,
            path@,
            data@,
        ),
{
    let mut header = tar::Header::new_gnu();
    header.set_size(data.len() as u64);
    header.set_mode(mode);
    header.set_cksum();
    archive.builder.append_data(&mut header, path, data)
}

/// Ends an archive and hands out its bytes.
///
/// Trusted: stands for `tar::Builder::into_inner`, which writes the two
/// closing blocks of zero bytes after what was written before and returns the
/// writer. The contract claims that whether this succeeds depends on what was
/// written alone.
#[verifier::external_body]
pub(crate) fn finish_archive(archive: Archive) -> (r: Result<Vec<u8>, std::io::Error>)
    ensures
        r is Ok <==> closes_archive(written(archive)),
        r matches Ok(bytes) ==> bytes@ == written(archive) + end_of_archive(),
{
    archive.builder.into_inner()
}

/// Compresses `data` into a gzip stream.
///
/// Trusted: stands for `flate2::write::GzEncoder` at the default level: `new`
/// on an empty vector, `write_all` of the data, then `finish`. The contract
/// claims that whether this succeeds, and the stream where it does, depend on
/// the data alone.
#[verifier::external_body]
pub(crate) fn gzip(data: &[u8]) -> (r: Result<Vec<u8>, std::io::Error>)
    ensures
        r is Ok <==> compresses(data@),
        r matches Ok(bytes) ==> bytes@ == gzip_stream(data@),
{
    let mut encoder = flate2::write::GzEncoder::new(Vec::new(), flate2::Compression::default());
    encoder.write_all(data)?;
    encoder.finish()
}

/// What the outcome of packing or compressing holds: the bytes, or nothing
/// where it is an error.
pub open spec fn bytes_of(outcome: Result<Vec<u8>, std::io::Error>) -> Option<Seq<u8>> {
    match outcome {
        Ok(bytes) => Some(bytes@),
        Err(_) => None,
    }
}

/// Packs files into one archive, in their order. Packing succeeds exactly
/// where the archive writer takes every file and closes the archive; the
/// archive then holds the given files and nothing else.
pub(crate) fn pack(files: &Vec<NamedFile>) -> (r: Result<Vec<u8>, std::io::Error>)
    requires
        forall|i: int| 0 <= i < files.len() ==> is_safe_filename(#[trigger] files[i].name@),
    ensures
        bytes_of(r) == packed(files.deep_view()),
{
    let ghost all = files.deep_view();
    let mut archive = new_archive();
    let mut i: usize = 0;
    while i < files.len()
        invariant
            i <= files.len(),
            all == files.deep_view(),
            all.len() == files.len(),
            forall|j: int| 0 <= j < files.len() ==> is_safe_filename(#[trigger] files[j].name@),
            written(archive) == file_entries(all.take(i as int)),
            accepts_entries(all.take(i as int)),
        decreases files.len() - i,
    {
        let file = &files[i];
        proof {
            let now = all.take(i + 1);
            assert(now.drop_last() =~= all.take(i as int));
        }
        match append_file(&mut archive, FILE_MODE, file.name.as_str(), file.data.as_slice()) {
            Ok(()) => {
                assert(accepts_entries(all.take(i + 1))) by {
                    assert forall|j: int| 0 <= j < i + 1 implies accepts_entry(
                        FILE_MODE,
                        (#[trigger] all.take(i + 1)[j]).0,
                        all.take(i + 1)[j].1,
                    ) by {
                        if j < i {
                            assert(all.take(i as int)[j] == all.take(i + 1)[j]);
                        }
                    }
                }
            },
            Err(e) => {
                assert(!accepts_entry(FILE_MODE, all[i as int].0, all[i as int].1));
                return Err(e);
            },
        }
        i += 1;
    }
    assert(all.take(i as int) =~= all);
    finish_archive(archive)
}

} // verus!
