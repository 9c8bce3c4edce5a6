//! Archive byte encoding through the `zip` crate.
//!
//! The writer state is tracked abstractly: `written_entries` names what has
//! been fed into a writer, `writer_ok` names the healthy writer state, and
//! `zip_bytes_of` names the byte stream the zip format assigns to a list of
//! stored entries. Every entry is stamped with the format's fixed epoch date
//! rather than the wall clock, so the bytes are a function of the entries
//! alone. Only the four small wrappers below are trusted; the loop that
//! drives them is verified.

use vstd::prelude::*;
use std::io::Write;
use crate::archive::ArchiveEntry;
use crate::archive::PackagingError;
use crate::archive::names_distinct;

verus! {

/// An in-memory archive writer; the `zip` crate's writer state is opaque to
/// verification and is tracked only through `written_entries` and
/// `writer_ok`.
#[verifier::external_body]
pub struct ArchiveWriter {
    inner: zip::ZipWriter<std::io::Cursor<Vec<u8>>>,
}

/// The entries fed so far into an archive writer: each a name and the bytes
/// written under it, in order.
pub uninterp spec fn written_entries(w: ArchiveWriter) -> Seq<(Seq<char>, Seq<u8>)>;

/// The healthy writer state: the state a fresh writer has — stored
/// compression, no encryption, seekable in-memory output whose writes cannot
/// fail, no aborted entry, and mid-entry whenever an entry has been begun —
/// which every successful wrapper call below preserves.
pub uninterp spec fn writer_ok(w: ArchiveWriter) -> bool;

/// The archive byte stream that the zip format assigns to these entries,
/// stored without compression and stamped with the format's fixed epoch
/// date, so it depends on the entries alone.
pub uninterp spec fn zip_bytes_of(entries: Seq<(Seq<char>, Seq<u8>)>) -> Seq<u8>;

/// Whether one entry fits the zip format's per-entry limits promised below:
/// the name fits the 64 KiB name field even at four UTF-8 bytes per
/// character, and the data fits the 32-bit size fields.
pub open spec fn entry_fits(e: (Seq<char>, Seq<u8>)) -> bool {
    e.0.len() <= 16383 && e.1.len() <= 0xFFFF_FFFF
}

/// Whether every entry fits those limits.
pub open spec fn entries_fit(es: Seq<(Seq<char>, Seq<u8>)>) -> bool {
    forall|i: int| 0 <= i < es.len() ==> entry_fits(#[trigger] es[i])
}

/// Relies on zip::ZipWriter::new: a freshly created writer holds no entries
/// and is in the healthy state.
#[verifier::external_body]
fn writer_new() -> (w: ArchiveWriter)
    ensures
        written_entries(w) == Seq::<(Seq<char>, Seq<u8>)>::empty(),
        writer_ok(w),
{
    ArchiveWriter { inner: zip::ZipWriter::new(std::io::Cursor::new(Vec::new())) }
}

/// Relies on zip::ZipWriter::start_file: on success it begins one new, empty
/// entry under the given name, stored without compression and stamped with
/// the fixed epoch date. A healthy writer succeeds whenever the name is not
/// already in the archive (a repeated name is refused) and fits the format's
/// name field; with the in-memory output nothing else on the stored,
/// unencrypted path can fail, and success keeps the writer healthy.
#[verifier::external_body]
fn writer_start_file(w: &mut ArchiveWriter, name: &String) -> (r: Result<(), ()>)
    ensures
        r is Ok ==> written_entries(*final(w)) == written_entries(*old(w)).push(
            (name@, Seq::<u8>::empty()),
        ),
        writer_ok(*old(w)) && r is Ok ==> writer_ok(*final(w)),
        writer_ok(*old(w)) && name@.len() <= 16383 && (forall|i: int|
            0 <= i < written_entries(*old(w)).len() ==> #[trigger] written_entries(
                *old(w),
            )[i].0 != name@) ==> r is Ok,
{
    let options = zip::write::SimpleFileOptions::default().compression_method(
        zip::CompressionMethod::Stored,
    ).last_modified_time(zip::DateTime::default());
    match w.inner.start_file(name.as_str(), options) {
        Ok(()) => Ok(()),
        Err(_) => Err(()),
    }
}

/// Relies on the std::io::Write impl of zip::ZipWriter: write_all appends the
/// bytes to the entry begun last. A healthy writer succeeds whenever the
/// entry stays within the format's 32-bit size fields — the in-memory output
/// itself cannot fail — and success keeps the writer healthy.
#[verifier::external_body]
fn writer_write_data(w: &mut ArchiveWriter, data: &Vec<u8>) -> (r: Result<(), ()>)
    requires
        written_entries(*old(w)).len() > 0,
    ensures
        r is Ok ==> written_entries(*final(w)) == written_entries(*old(w)).update(
            written_entries(*old(w)).len() - 1,
            (
                written_entries(*old(w)).last().0,
                written_entries(*old(w)).last().1 + data@,
            ),
        ),
        writer_ok(*old(w)) && r is Ok ==> writer_ok(*final(w)),
        writer_ok(*old(w)) && written_entries(*old(w)).last().1.len() + data@.len()
            <= 0xFFFF_FFFF ==> r is Ok,
{
    match w.inner.write_all(data.as_slice()) {
        Ok(()) => Ok(()),
        Err(_) => Err(()),
    }
}

/// Relies on zip::ZipWriter::finish: the finished byte stream encodes exactly
/// the entries written into the archive. A healthy writer always finishes:
/// the central directory is written to the in-memory output, which cannot
/// fail, and oversized archives get the format's 64-bit records.
#[verifier::external_body]
fn writer_finish(w: ArchiveWriter) -> (r: Result<Vec<u8>, ()>)
    ensures
        r matches Ok(b) ==> b@ == zip_bytes_of(written_entries(w)),
        writer_ok(w) ==> r is Ok,
{
    match w.inner.finish() {
        Ok(cursor) => Ok(cursor.into_inner()),
        Err(_) => Err(()),
    }
}

/// Encodes the entries as one archive byte stream, stored uncompressed, with
/// every entry stamped by the fixed epoch date. Success is owed whenever the
/// entry names are distinct and every entry fits the format's limits; any
/// failure of the underlying writer surfaces as an archive-write error
/// naming the entry being written.
pub fn build_archive(entries: &Vec<ArchiveEntry>) -> (r: Result<Vec<u8>, PackagingError>)
    ensures
        r matches Ok(b) ==> b@ == zip_bytes_of(entries.deep_view()),
        r matches Err(e) ==> e matches PackagingError::ArchiveWrite { .. },
        names_distinct(entries.deep_view()) && entries_fit(entries.deep_view()) ==> r is Ok,
{
    let mut w = writer_new();
    let mut i: usize = 0;
    assert(written_entries(w) =~= entries.deep_view().take(0));
    while i < entries.len()
        invariant
            0 <= i <= entries.len(),
            written_entries(w) == entries.deep_view().take(i as int),
            writer_ok(w),
        decreases entries.len() - i,
    {
        let ghost pre = written_entries(w);
        match writer_start_file(&mut w, &entries[i].name) {
            Ok(()) => (),
            Err(()) => {
                proof {
                    if names_distinct(entries.deep_view()) && entries_fit(entries.deep_view()) {
                        assert(entry_fits(entries.deep_view()[i as int]));
                        let i2 = choose|i2: int|
                            0 <= i2 < pre.len() && pre[i2].0 == entries@[i as int].name@;
                        assert(entries.deep_view()[i2].0 == entries.deep_view()[i as int].0);
                        assert(false);
                    }
                }
                return Err(PackagingError::ArchiveWrite { path: entries[i].name.clone() });
            },
        }
        match writer_write_data(&mut w, &entries[i].data) {
            Ok(()) => (),
            Err(()) => {
                proof {
                    if names_distinct(entries.deep_view()) && entries_fit(entries.deep_view()) {
                        assert(entry_fits(entries.deep_view()[i as int]));
                        assert(false);
                    }
                }
                return Err(PackagingError::ArchiveWrite { path: entries[i].name.clone() });
            },
        }
        proof {
            assert((Seq::<u8>::empty() + entries@[i as int].data@) =~= entries@[i as int].data@);
            assert(written_entries(w) =~= pre.push(
                (entries@[i as int].name@, entries@[i as int].data@),
            ));
            assert(entries.deep_view().take(i as int + 1) =~= pre.push(
                entries.deep_view()[i as int],
            ));
        }
        i = i + 1;
    }
    assert(entries.deep_view().take(entries@.len() as int) =~= entries.deep_view());
    match writer_finish(w) {
        Ok(b) => Ok(b),
        Err(()) => Err(PackagingError::ArchiveWrite { path: String::new() }),
    }
}

} // verus!
