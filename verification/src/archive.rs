//! Archives of a dossier's files for export.

use std::io::Cursor;
use std::io::Write;
use vstd::prelude::*;
use zip::write::FileOptions;
use zip::CompressionMethod;
use zip::ZipWriter;

verus! {

/// A zip archive that is being written to memory.
#[verifier::external_body]
pub struct Archive {
    writer: ZipWriter<Cursor<Vec<u8>>>,
}

/// The entries of an archive so far, in the order in which they were
/// started: the name of each, and the bytes that were written to it while it
/// was the entry at hand.
pub uninterp spec fn archive_entries(archive: Archive) -> Seq<(Seq<char>, Seq<u8>)>;

/// Whether zip, writing to memory, starts an entry of the name in an archive
/// with the given entries.
pub uninterp spec fn zip_starts(entries: Seq<(Seq<char>, Seq<u8>)>, name: Seq<char>) -> bool;

/// Whether zip, writing to memory, takes all of the bytes into an archive
/// with the given entries.
pub uninterp spec fn zip_writes(entries: Seq<(Seq<char>, Seq<u8>)>, data: Seq<u8>) -> bool;

/// The bytes of the finished zip archive with the given entries, each
/// deflated and with the default options; nothing where zip cannot finish
/// it. The archive carries no time of its own: zip is built without its
/// `time` feature.
pub uninterp spec fn zip_bytes(entries: Seq<(Seq<char>, Seq<u8>)>) -> Option<Seq<u8>>;

/// `ZipWriter::new` of zip on an empty buffer: an archive without entries.
#[verifier::external_body]
fn new_archive() -> (archive: Archive)
    ensures
        archive_entries(archive).len() == 0,
{
    Archive { writer: ZipWriter::new(Cursor::new(Vec::new())) }
}

/// `ZipWriter::start_file` of zip with the default options and the deflate
/// method. Whether it succeeds depends on the entries so far and the name.
/// Where it succeeds, an entry of the name is started and has no content
/// yet.
#[verifier::external_body]
fn start_entry(archive: &mut Archive, name: &str) -> (started: bool)
    ensures
        started == zip_starts(archive_entries(*old(archive)), name@),
        started ==> archive_entries(*final(archive)) == archive_entries(*old(archive)).push(
            (name@, Seq::<u8>::empty()),
        ),
{
    let options = FileOptions::default().compression_method(CompressionMethod::Deflated);
    archive.writer.start_file(name, options).is_ok()
}

/// `write_all` on the writer of zip. Whether it succeeds depends on the
/// entries so far and the bytes. Where it succeeds on an archive that has
/// entries, the bytes are appended to the content of the entry that was
/// started last. Nothing is said of a write to an archive without entries,
/// which succeeds where there is nothing to write.
#[verifier::external_body]
fn write_entry(archive: &mut Archive, data: &[u8]) -> (written: bool)
    ensures
        written == zip_writes(archive_entries(*old(archive)), data@),
        written && archive_entries(*old(archive)).len() > 0 ==> archive_entries(*final(archive))
            == archive_entries(*old(archive)).drop_last().push(
            (
                archive_entries(*old(archive)).last().0,
                archive_entries(*old(archive)).last().1 + data@,
            ),
        ),
{
    archive.writer.write_all(data).is_ok()
}

/// The bytes that came back, if any.
pub open spec fn bytes_view(bytes: Option<Vec<u8>>) -> Option<Seq<u8>> {
    match bytes {
        Some(b) => Some(b@),
        None => None,
    }
}

/// `ZipWriter::finish` of zip and the buffer that it hands back: the bytes
/// of the archive with the entries added so far, or nothing where zip cannot
/// finish it.
#[verifier::external_body]
fn finish_archive(archive: Archive) -> (bytes: Option<Vec<u8>>)
    ensures
        bytes_view(bytes) == zip_bytes(archive_entries(archive)),
{
    let mut archive = archive;
    match archive.writer.finish() {
        Ok(buffer) => Some(buffer.into_inner()),
        Err(_) => None,
    }
}

/// One file of an export: the name under which it goes into the archive, and
/// its bytes.
#[derive(Debug)]
pub struct ExportFile {
    pub name: String,
    pub data: Vec<u8>,
}

/// The entries that an export is meant to have: the description of the
/// dossier first, as `metadata.json`, then each file under `files/` and its
/// name.
pub open spec fn export_entries(metadata: Seq<char>, files: Seq<ExportFile>) -> Seq<
    (Seq<char>, Seq<u8>),
> {
    seq![("metadata.json"@, vstd::utf8::encode_utf8(metadata))] + Seq::new(
        files.len(),
        |i: int| ("files/"@ + files[i].name@, files[i].data@),
    )
}

/// Zip takes one more entry into an archive with the given entries: it
/// starts the entry and then takes its content.
pub open spec fn zip_takes_entry(
    entries: Seq<(Seq<char>, Seq<u8>)>,
    name: Seq<char>,
    data: Seq<u8>,
) -> bool {
    zip_starts(entries, name) && zip_writes(entries.push((name, Seq::<u8>::empty())), data)
}

/// Zip takes the first `n` of the entries, one after the other, into an
/// archive that is empty at first.
pub open spec fn zip_takes_first(entries: Seq<(Seq<char>, Seq<u8>)>, n: int) -> bool
    decreases n,
{
    if n <= 0 {
        true
    } else {
        zip_takes_first(entries, n - 1) && zip_takes_entry(
            entries.take(n - 1),
            entries[n - 1].0,
            entries[n - 1].1,
        )
    }
}

/// Zip takes all of the entries and finishes the archive.
pub open spec fn zip_takes(entries: Seq<(Seq<char>, Seq<u8>)>) -> bool {
    zip_takes_first(entries, entries.len() as int) && zip_bytes(entries) is Some
}

/// Adds an entry with its content. An entry that cannot be started is left
/// out, and one that cannot be written stays as it is.
fn add_entry(archive: &mut Archive, name: &str, data: &[u8]) -> (added: bool)
    ensures
        added == zip_takes_entry(archive_entries(*old(archive)), name@, data@),
        added ==> archive_entries(*final(archive)) == archive_entries(*old(archive)).push(
            (name@, data@),
        ),
{
    if !start_entry(archive, name) {
        return false;
    }
    let ghost started = archive_entries(*archive);
    let written = write_entry(archive, data);
    proof {
        if written {
            assert(started.drop_last() =~= archive_entries(*old(archive)));
            assert(Seq::<u8>::empty() + data@ =~= data@);
        }
    }
    written
}

/// The archive of an export, and whether every entry went in and the archive
/// was finished. That is so exactly where zip takes the description and the
/// files, in this order; the bytes are then the zip of these entries.
pub fn build_archive(metadata: &str, files: &Vec<ExportFile>) -> (r: (Vec<u8>, bool))
    ensures
        r.1 == zip_takes(export_entries(metadata@, files@)),
        r.1 ==> Some(r.0@) == zip_bytes(export_entries(metadata@, files@)),
{
    let ghost all = export_entries(metadata@, files@);
    let mut archive = new_archive();
    let ghost fresh = archive_entries(archive);
    let mut complete = add_entry(&mut archive, "metadata.json", metadata.as_bytes());
    proof {
        assert(fresh =~= all.take(0));
        assert(all[0] == ("metadata.json"@, vstd::utf8::encode_utf8(metadata@)));
        assert(zip_takes_first(all, 0));
        assert(complete == zip_takes_entry(all.take(0), all[0].0, all[0].1));
        assert(all.take(1) =~= all.take(0).push(all[0]));
    }
    let mut i: usize = 0;
    while i < files.len()
        invariant
            i <= files.len(),
            all == export_entries(metadata@, files@),
            complete == zip_takes_first(all, i + 1),
            complete ==> archive_entries(archive) == all.take(i + 1),
        decreases files.len() - i,
    {
        let mut name = String::new();
        crate::text::push_text(&mut name, "files/");
        crate::text::push_text(&mut name, files[i].name.as_str());
        proof {
            assert(all[i + 1] == ("files/"@ + files@[i as int].name@, files@[i as int].data@));
        }
        let added = add_entry(&mut archive, name.as_str(), files[i].data.as_slice());
        proof {
            if complete && added {
                assert(all.take(i + 2) =~= all.take(i + 1).push(all[i + 1]));
            }
        }
        complete = complete && added;
        i = i + 1;
    }
    proof {
        assert(all.take(i + 1) =~= all);
    }
    archive_outcome(finish_archive(archive), complete)
}

/// What an export hands back once the archive was finished or could not be:
/// the bytes and whether every entry went in; no bytes, and the news that
/// not every entry went in, where the archive could not be finished.
pub fn archive_outcome(finished: Option<Vec<u8>>, complete: bool) -> (r: (Vec<u8>, bool))
    ensures
        match finished {
            Some(bytes) => r.0 == bytes && r.1 == complete,
            None => r.0@.len() == 0 && !r.1,
        },
{
    match finished {
        Some(bytes) => (bytes, complete),
        None => (Vec::new(), false),
    }
}

} // verus!

