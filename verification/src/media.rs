//! The zip archive in which media files are uploaded: each file with data
//! is stored under its position in the upload list, and a `_meta` member
//! lists every entry with the name it has in the archive, if any.

use vstd::prelude::*;
use vstd::string::*;
use std::io::Write;
use zip::write::SimpleFileOptions;
use zip::ZipWriter;
use crate::error::AnkiError;
use crate::upload::{decimal, decimal_string, lemma_decimal_injective, lemma_decimal_shape, lemma_usize_decimal_len};

verus! {

/// A media file's name, size and checksum, as listed for an upload.
pub struct ZipFileMetadata {
    pub filename: String,
    pub total_bytes: u32,
    pub sha1: String,
}

/// How a member is put into a zip archive.
#[derive(Debug, Clone, Copy, PartialEq, Eq, Structural)]
pub enum ZipCompression {
    /// The bytes are stored as they are.
    Stored,
}

/// A zip archive being written into memory, with the options its members
/// are started with. The writer's type carries a bound on `std::io::Write`
/// and `std::io::Seek`, and the options' type one on a trait of the `zip`
/// crate, which Verus does not take in a declaration of a type, so both are
/// held here, out of Verus's sight, and described by `zip_members` and
/// `zip_compression`.
#[verifier::external_body]
pub struct ZipArchiveWriter {
    zip: ZipWriter<std::io::Cursor<Vec<u8>>>,
    options: SimpleFileOptions,
}

/// A member of a zip archive: its name, how it is compressed, and the
/// bytes written to it.
pub type ZipMemberSpec = (Seq<char>, ZipCompression, Seq<u8>);

/// How the members of `w` are compressed, as set when it was made.
pub uninterp spec fn zip_compression(w: ZipArchiveWriter) -> ZipCompression;

/// The members started so far in `w`, in order, each with the bytes
/// written to it.
pub uninterp spec fn zip_members(w: ZipArchiveWriter) -> Seq<ZipMemberSpec>;

/// Whether `w` has been made and since then only had calls that succeeded,
/// so that it is in the state the names describe.
pub uninterp spec fn zip_usable(w: ZipArchiveWriter) -> bool;

/// The bytes of the zip archive that the `zip` crate writes, without
/// timestamps, for the members `members`.
pub uninterp spec fn zip_archive(members: Seq<ZipMemberSpec>) -> Seq<u8>;

/// The JSON text `serde_json::to_vec` gives for a list of pairs of a string
/// and an optional string: an array of two-element arrays, `null` for an
/// absent string.
pub uninterp spec fn pairs_json(pairs: Seq<(Seq<char>, Option<Seq<char>>)>) -> Seq<u8>;

/// The most bytes a member can hold without the zip64 extension, which the
/// writer is not asked to use (`ZIP64_BYTES_THR` of the `zip` crate).
pub open spec fn zip_member_limit() -> int {
    0xFFFF_FFFF
}

/// Whether a member named `name` is among `members`.
pub open spec fn has_member_named(members: Seq<ZipMemberSpec>, name: Seq<char>) -> bool {
    exists|j: int| 0 <= j < members.len() && #[trigger] members[j].0 == name
}

/// Calls `ZipWriter::new` on an empty in-memory buffer, and
/// `FileOptions::default` with the compression method set, for the options
/// of the members to come.
#[verifier::external_body]
fn zip_writer_new(method: ZipCompression) -> (w: ZipArchiveWriter)
    ensures
        zip_members(w) == Seq::<ZipMemberSpec>::empty(),
        zip_compression(w) == method,
        zip_usable(w),
{
    let method = match method {
        ZipCompression::Stored => zip::CompressionMethod::Stored,
    };
    ZipArchiveWriter {
        zip: ZipWriter::new(std::io::Cursor::new(Vec::new())),
        options: SimpleFileOptions::default().compression_method(method),
    }
}

/// Calls `ZipWriter::start_file`. Per the source it ends the member before
/// (whose size the writer has kept within the limit), writes a local header
/// into memory, and fails for a name already used; the name's length must
/// fit in 16 bits, or the writer panics, so the name is kept short. When it
/// succeeds on a usable writer, a member named `name`, with no data yet,
/// follows the members before it. On a writer that is no longer usable (a
/// write past the limit was aborted, leaving stray bytes in the buffer)
/// nothing is claimed of the outcome.
#[verifier::external_body]
fn zip_start_file(w: &mut ZipArchiveWriter, name: &str) -> (r: Result<(), String>)
    requires
        name@.len() <= 16383,
    ensures
        zip_compression(*final(w)) == zip_compression(*old(w)),
        zip_usable(*old(w)) && !has_member_named(zip_members(*old(w)), name@) ==> r is Ok,
        r is Ok && zip_usable(*old(w)) ==> zip_usable(*final(w)) && zip_members(*final(w))
            == zip_members(*old(w)).push((name@, zip_compression(*old(w)), Seq::<u8>::empty())),
{
    w.zip.start_file(name, w.options).map_err(|e| e.to_string())
}

/// The members of an archive after `bytes` were written to the last one.
pub open spec fn with_bytes(members: Seq<ZipMemberSpec>, bytes: Seq<u8>) -> Seq<ZipMemberSpec> {
    let last = members.last();
    members.update(members.len() - 1, (last.0, last.1, last.2 + bytes))
}

/// Calls `write_all` on the writer. Per the source, an empty chunk is
/// taken without a call to the writer; otherwise writing fails when no
/// member has been started, or when the member would grow past the zip32
/// limit, and else goes into memory. When it succeeds on a usable writer,
/// `chunk` follows the data of the last member, if there is one; on a
/// writer that is no longer usable nothing is claimed of the members.
#[verifier::external_body]
fn zip_write_all(w: &mut ZipArchiveWriter, chunk: &[u8]) -> (r: Result<(), String>)
    ensures
        zip_compression(*final(w)) == zip_compression(*old(w)),
        zip_usable(*old(w)) && (chunk@.len() == 0 || (zip_members(*old(w)).len() > 0
            && zip_members(*old(w)).last().2.len() + chunk@.len() <= zip_member_limit())) ==> r is Ok,
        r is Ok && zip_usable(*old(w)) && zip_members(*old(w)).len() == 0 ==> chunk@.len() == 0
            && zip_members(*final(w)) == zip_members(*old(w)),
        r is Ok && zip_usable(*old(w)) && zip_members(*old(w)).len() > 0 ==> zip_members(
            *final(w),
        ) == with_bytes(zip_members(*old(w)), chunk@),
        r is Ok && zip_usable(*old(w)) ==> zip_usable(*final(w)),
{
    w.zip.write_all(chunk).map_err(|e| e.to_string())
}

/// Calls `ZipWriter::finish` and takes the bytes out of the buffer. Per the
/// source, finishing ends the last member and writes the central directory
/// into memory, which does not fail for a usable writer and then gives the
/// archive of its members. For a writer that is no longer usable, the
/// buffer may hold stray bytes, and nothing is claimed of the outcome.
#[verifier::external_body]
fn zip_finish(w: ZipArchiveWriter) -> (r: Result<Vec<u8>, String>)
    ensures
        zip_usable(w) ==> r is Ok,
        r matches Ok(v) ==> (zip_usable(w) ==> v@ == zip_archive(zip_members(w))),
{
    match w.zip.finish() {
        Ok(cursor) => Ok(cursor.into_inner()),
        Err(e) => Err(e.to_string()),
    }
}

/// An upper bound on the length of the JSON text for `pairs`: a character
/// of a string takes at most six bytes (a `\u00XX` escape; in UTF-8 a
/// character takes at most four), a string two more for its quotes, an
/// absent string four (`null`), a pair three for its brackets and comma and
/// one for the comma before it, and the list two for its brackets.
pub open spec fn pairs_json_bound(pairs: Seq<(Seq<char>, Option<Seq<char>>)>) -> int
    decreases pairs.len(),
{
    if pairs.len() == 0 {
        2
    } else {
        let last = pairs.last();
        let second = match last.1 {
            Some(t) => 6 * t.len(),
            None => 0,
        };
        pairs_json_bound(pairs.drop_last()) + 6 * last.0.len() + second + 10
    }
}

/// Calls `serde_json::to_vec` on a list of pairs. Per the source, strings
/// and options of strings always serialize and the output goes into a
/// `Vec`, so it succeeds. The compact formatter writes a list as `[`, the
/// items joined by `,`, and `]`, a pair as a list of two, `None` as `null`,
/// and a string in quotes with each byte as it is but for `"`, `\\` and
/// control bytes, which take an escape of two or six bytes; so the text is
/// no longer than `pairs_json_bound`.
#[verifier::external_body]
fn pairs_to_json(pairs: &Vec<(String, Option<String>)>) -> (r: Result<Vec<u8>, String>)
    ensures
        r is Ok,
        r matches Ok(v) ==> v@ == pairs_json(pairs_view(pairs@)),
        r matches Ok(v) ==> v@.len() <= pairs_json_bound(pairs_view(pairs@)),
{
    serde_json::to_vec(pairs).map_err(|e| e.to_string())
}

/// An upload entry as plain values: the file's name and its data, if the
/// file still exists.
pub type UploadItemSpec = (Seq<char>, Option<Seq<u8>>);

pub open spec fn item_view(e: (String, Option<Vec<u8>>)) -> UploadItemSpec {
    (e.0@, match e.1 { Some(d) => Some(d@), None => None })
}

pub open spec fn items_view(es: Seq<(String, Option<Vec<u8>>)>) -> Seq<UploadItemSpec> {
    es.map_values(|e: (String, Option<Vec<u8>>)| item_view(e))
}

pub open spec fn pair_view(p: (String, Option<String>)) -> (Seq<char>, Option<Seq<char>>) {
    (p.0@, match p.1 { Some(s) => Some(s@), None => None })
}

pub open spec fn pairs_view(ps: Seq<(String, Option<String>)>) -> Seq<(Seq<char>, Option<Seq<char>>)> {
    ps.map_values(|p: (String, Option<String>)| pair_view(p))
}

/// The `_meta` entry for the item at position `i`: its name, and the name
/// of its member in the archive (its position in decimal) if it has data.
pub open spec fn meta_entry(i: int, item: UploadItemSpec) -> (Seq<char>, Option<Seq<char>>) {
    (item.0, if item.1 is Some { Some(decimal(i as nat)) } else { None })
}

/// The `_meta` entries for `items`, one per item, in order.
pub open spec fn meta_entries(items: Seq<UploadItemSpec>) -> Seq<(Seq<char>, Option<Seq<char>>)> {
    Seq::new(items.len(), |i: int| meta_entry(i, items[i]))
}

/// The data members for `items`: one per item with data, in order, named
/// by the item's position, stored, holding the data.
pub open spec fn data_members(items: Seq<UploadItemSpec>) -> Seq<ZipMemberSpec>
    decreases items.len(),
{
    if items.len() == 0 {
        Seq::empty()
    } else {
        let rest = data_members(items.drop_last());
        match items.last().1 {
            Some(d) => rest.push(
                (decimal((items.len() - 1) as nat), ZipCompression::Stored, d),
            ),
            None => rest,
        }
    }
}

/// All members of the upload archive for `items`: the data members, then
/// `_meta` holding the JSON of the `_meta` entries.
pub open spec fn upload_members(items: Seq<UploadItemSpec>) -> Seq<ZipMemberSpec> {
    data_members(items).push(
        ("_meta"@, ZipCompression::Stored, pairs_json(meta_entries(items))),
    )
}

/// Whether the data of every item stays within the zip32 size limit.
pub open spec fn data_fits(items: Seq<UploadItemSpec>) -> bool {
    forall|i: int|
        0 <= i < items.len() && (#[trigger] items[i]).1 is Some ==> items[i].1->0.len()
            <= zip_member_limit()
}

/// Whether every member of the upload archive for `items` stays within the
/// zip32 size limit.
pub open spec fn upload_fits(items: Seq<UploadItemSpec>) -> bool {
    &&& data_fits(items)
    &&& pairs_json(meta_entries(items)).len() <= zip_member_limit()
}

/// Builds the zip archive of a media upload from `(filename, data)` pairs,
/// where files without data (deleted ones) appear only in `_meta`. It
/// succeeds whenever every member stays within the zip32 size limit, which
/// holds in particular when each file's data does and the bound on the
/// `_meta` text does too; a failure of the zip writer is an `IoError` with
/// its message.
pub fn zip_files_for_upload(entries_: Vec<(String, Option<Vec<u8>>)>) -> (r: Result<Vec<u8>, AnkiError>)
    ensures
        upload_fits(items_view(entries_@)) ==> r is Ok,
        data_fits(items_view(entries_@)) && pairs_json_bound(meta_entries(items_view(entries_@)))
            <= zip_member_limit() ==> r is Ok,
        r matches Ok(v) ==> v@ == zip_archive(upload_members(items_view(entries_@))),
        r matches Err(e) ==> e is IoError,
{
    let ghost items = items_view(entries_@);
    let mut zip = zip_writer_new(ZipCompression::Stored);
    let mut entries: Vec<(String, Option<String>)> = Vec::new();
    let mut idx: usize = 0;
    while idx < entries_.len()
        invariant
            idx <= entries_@.len(),
            items == items_view(entries_@),
            zip_compression(zip) == ZipCompression::Stored,
            zip_members(zip) == data_members(items.take(idx as int)),
            zip_usable(zip),
            pairs_view(entries@) == meta_entries(items.take(idx as int)),
            entries@.len() == idx,
        decreases entries_.len() - idx,
    {
        proof {
            lemma_data_member_names(items.take(idx as int));
        }
        let ghost before = entries@;
        assert(items.take(idx + 1).drop_last() =~= items.take(idx as int));
        assert(items[idx as int] == item_view(entries_@[idx as int]));
        let filename = entries_[idx].0.clone();
        match &entries_[idx].1 {
            None => {
                entries.push((filename, None));
            },
            Some(data) => {
                let idx_str = decimal_string(idx as u128);
                proof {
                    lemma_usize_decimal_len(idx);
                    let ms = zip_members(zip);
                    if has_member_named(ms, decimal(idx as nat)) {
                        let j = choose|j: int| 0 <= j < ms.len() && #[trigger] ms[j].0 == decimal(
                            idx as nat,
                        );
                        let i = choose|i: nat|
                            i < items.take(idx as int).len() && #[trigger] ms[j].0 == decimal(i);
                        lemma_decimal_injective(i, idx as nat);
                    }
                }
                match zip_start_file(&mut zip, idx_str.as_str()) {
                    Ok(()) => {},
                    Err(info) => {
                        return Err(AnkiError::IoError { info });
                    },
                }
                proof {
                    if data_fits(items) {
                        assert(items[idx as int].1->0.len() <= zip_member_limit());
                    }
                }
                match zip_write_all(&mut zip, data.as_slice()) {
                    Ok(()) => {},
                    Err(info) => {
                        return Err(AnkiError::IoError { info });
                    },
                }
                assert(zip_members(zip) =~= data_members(items.take(idx + 1)));
                entries.push((filename, Some(idx_str)));
            },
        }
        assert(pairs_view(entries@)[idx as int] == meta_entry(idx as int, items[idx as int]));
        assert forall|j: int| 0 <= j < idx implies pairs_view(entries@)[j] == meta_entry(
            j,
            items[j],
        ) by {
            assert(entries@[j] == before[j]);
            assert(pairs_view(before)[j] == meta_entries(items.take(idx as int))[j]);
        }
        assert(pairs_view(entries@) =~= meta_entries(items.take(idx + 1)));
        idx = idx + 1;
    }
    assert(items.take(idx as int) =~= items);
    let meta = match pairs_to_json(&entries) {
        Ok(m) => m,
        Err(info) => {
            return Err(AnkiError::IoError { info });
        },
    };
    proof {
        reveal_strlit("_meta");
        lemma_data_member_names(items);
        let ms = zip_members(zip);
        if has_member_named(ms, "_meta"@) {
            let j = choose|j: int| 0 <= j < ms.len() && #[trigger] ms[j].0 == "_meta"@;
            let i = choose|i: nat| i < items.len() && #[trigger] ms[j].0 == decimal(i);
            lemma_decimal_shape(i);
            assert(decimal(i)[0] == "_meta"@[0]);
        }
    }
    match zip_start_file(&mut zip, "_meta") {
        Ok(()) => {},
        Err(info) => {
            return Err(AnkiError::IoError { info });
        },
    }
    match zip_write_all(&mut zip, meta.as_slice()) {
        Ok(()) => {},
        Err(info) => {
            return Err(AnkiError::IoError { info });
        },
    }
    assert(zip_members(zip) =~= upload_members(items));
    match zip_finish(zip) {
        Ok(v) => Ok(v),
        Err(info) => Err(AnkiError::IoError { info }),
    }
}

/// Whether the members `ms` have pairwise different names.
pub open spec fn names_distinct(ms: Seq<ZipMemberSpec>) -> bool {
    forall|j: int, k: int| 0 <= j < k < ms.len() ==> ms[j].0 != ms[k].0
}

/// Every data member is named by the position of an item with data, below
/// the number of items.
proof fn lemma_data_member_names(items: Seq<UploadItemSpec>)
    ensures
        forall|j: int|
            0 <= j < data_members(items).len() ==> exists|i: nat|
                i < items.len() && #[trigger] data_members(items)[j].0 == decimal(i),
        names_distinct(data_members(items)),
    decreases items.len(),
{
    if items.len() > 0 {
        let prev = items.drop_last();
        lemma_data_member_names(prev);
        let rest = data_members(prev);
        let n = (items.len() - 1) as nat;
        if items.last().1 is Some {
            let ms = data_members(items);
            assert forall|j: int| 0 <= j < rest.len() implies ms[j].0 != decimal(n) by {
                let i = choose|i: nat| i < prev.len() && #[trigger] rest[j].0 == decimal(i);
                if ms[j].0 == decimal(n) {
                    lemma_decimal_injective(i, n);
                }
            }
            assert forall|j: int| 0 <= j < ms.len() implies exists|i: nat|
                i < items.len() && #[trigger] ms[j].0 == decimal(i) by {
                if j < rest.len() {
                    let i = choose|i: nat| i < prev.len() && #[trigger] rest[j].0 == decimal(i);
                    assert(ms[j].0 == decimal(i));
                } else {
                    assert(ms[j].0 == decimal(n));
                }
            }
        }
    }
}

/// Every member of a media upload archive has its own name: data members
/// are named by distinct positions, and `_meta` cannot be read as a number.
pub proof fn lemma_upload_member_names_distinct(items: Seq<UploadItemSpec>)
    ensures
        names_distinct(upload_members(items)),
{
    reveal_strlit("_meta");
    lemma_data_member_names(items);
    let dm = data_members(items);
    let ms = upload_members(items);
    assert forall|j: int, k: int| 0 <= j < k < ms.len() implies ms[j].0 != ms[k].0 by {
        if k < dm.len() {
            assert(ms[j] == dm[j] && ms[k] == dm[k]);
        } else {
            let i = choose|i: nat| i < items.len() && #[trigger] dm[j].0 == decimal(i);
            lemma_decimal_shape(i);
            assert(ms[j].0 == decimal(i));
            assert(ms[k].0 == "_meta"@);
            assert("_meta"@[0] == '_');
            if ms[j].0 == ms[k].0 {
                assert(decimal(i)[0] == '_');
            }
        }
    }
}

} // verus!
