//! Reading a template archive (a gzip-compressed tar file) and deciding
//! where each of its entries is unpacked.
//!
//! Such an archive wraps its content in one top directory. That directory is
//! dropped: what lies in it lands in the project directory itself.
//!
//! The archive is decompressed as a whole first. Its blocks are looked over
//! before the tar reader sees them, and an archive with the extended header
//! of a sparse file in it is refused.

use crate::errors::{CliError, CliErrorView};
use crate::paths::{adjoin, clean, join, join_path, lemma_normal_of_clean, normal, normalize};
use vstd::prelude::*;
use vstd::utf8::{
    decode_utf8, encode_utf8, encode_utf8_decode_utf8, encode_utf8_valid_utf8, valid_utf8,
};

verus! {

/// The byte that parts the segments of an entry's path.
pub const SEPARATOR: u8 = 0x2f;

/// Where the first separator of `path` stands; the length of `path` where it
/// has none.
pub open spec fn first_separator(path: Seq<u8>) -> int
    decreases path.len(),
{
    if path.len() == 0 || path[0] == SEPARATOR {
        0
    } else {
        1 + first_separator(path.drop_first())
    }
}

/// What stands in `path` behind its first segment and the separator that
/// ends it; nothing where the path has one segment only.
pub open spec fn behind_first_segment(path: Seq<u8>) -> Seq<u8> {
    let cut = first_separator(path);
    if cut < path.len() {
        path.skip(cut + 1)
    } else {
        Seq::<u8>::empty()
    }
}

/// Where the entry stored under `path` is unpacked below `dir`: its path
/// without the first segment, reduced to its names and adjoined to `dir`.
/// An entry whose remaining path is not UTF-8 text is not unpacked.
pub open spec fn target(dir: Seq<char>, path: Seq<u8>) -> Option<Seq<char>> {
    let rest = behind_first_segment(path);
    if valid_utf8(rest) {
        Some(adjoin(dir, normal(decode_utf8(rest))))
    } else {
        None
    }
}

/// [`target`] for each path in turn.
pub open spec fn targets(dir: Seq<char>, paths: Seq<Seq<u8>>) -> Seq<Option<Seq<char>>> {
    Seq::new(paths.len(), |i: int| target(dir, paths[i]))
}

/// The raw paths as byte sequences.
pub open spec fn raw(paths: Seq<Vec<u8>>) -> Seq<Seq<u8>> {
    Seq::new(paths.len(), |i: int| paths[i]@)
}

/// A listing as plain sequences.
pub open spec fn listing_view(listed: Result<Vec<Vec<u8>>, String>) -> Result<
    Seq<Seq<u8>>,
    Seq<char>,
> {
    match listed {
        Ok(paths) => Ok(raw(paths@)),
        Err(reason) => Err(reason@),
    }
}

/// The targets as character sequences.
pub open spec fn target_texts(found: Seq<Option<String>>) -> Seq<Option<Seq<char>>> {
    Seq::new(found.len(), |i: int| crate::text::text_view(found[i]))
}

/// What `flate2`'s decoder reads out of the gzip stream `archive`, read to
/// its end but no further than `limit` bytes: the content, or the text of
/// the error on the way.
pub uninterp spec fn gzip_content(archive: Seq<u8>, limit: u64) -> Result<Seq<u8>, Seq<char>>;

/// Content, or the reason why there is none, as plain sequences.
pub open spec fn content_view(content: Result<Vec<u8>, String>) -> Result<Seq<u8>, Seq<char>> {
    match content {
        Ok(bytes) => Ok(bytes@),
        Err(reason) => Err(reason@),
    }
}

/// Reads `flate2::read::GzDecoder::new(archive)` with `Read::read_to_end`,
/// through `Read::take(limit)`, so that the reading ends at the end of the
/// stream or after `limit` bytes. Where the decoder fails, the error's text
/// is handed out and what was read is dropped. The contract names the
/// outcome; it claims nothing else of it.
#[verifier::external_body]
fn inflate(archive: &[u8], limit: u64) -> (content: Result<Vec<u8>, String>)
    ensures
        content_view(content) == gzip_content(archive@, limit),
{
    let mut content = Vec::new();
    let mut reader = std::io::Read::take(flate2::read::GzDecoder::new(archive), limit);
    match std::io::Read::read_to_end(&mut reader, &mut content) {
        Ok(_) => Ok(content),
        Err(error) => Err(error.to_string()),
    }
}

/// The mark that a header of the GNU format carries in its bytes 257 to 264.
/// A tar file is made of blocks of 512 bytes; every header fills one block
/// and starts at a multiple of that size.
pub open spec fn gnu_mark() -> Seq<u8> {
    seq![0x75u8, 0x73u8, 0x74u8, 0x61u8, 0x72u8, 0x20u8, 0x20u8, 0x00u8]
}

/// The block that starts at `at` reads as the header of a sparse file that
/// goes on in further blocks: it has the type `S` in its byte 156, carries
/// the mark of the GNU format, and has the flag for an extended header, 1,
/// in its byte 482.
pub open spec fn is_sparse_header(content: Seq<u8>, at: int) -> bool {
    &&& content[at + 156] == 0x53u8
    &&& content.subrange(at + 257, at + 265) == gnu_mark()
    &&& content[at + 482] == 1u8
}

/// The whole block of `content` with the number `k`, counted from 0, reads
/// as the extended header of a sparse file.
pub open spec fn is_sparse_block(content: Seq<u8>, k: int) -> bool {
    0 <= k && (k + 1) * 512 <= content.len() && is_sparse_header(content, k * 512)
}

/// Some whole block of `content` reads as the extended header of a sparse
/// file.
pub open spec fn has_sparse_header(content: Seq<u8>) -> bool {
    exists|k: int| is_sparse_block(content, k)
}

/// Why an archive with such a header in it is refused.
pub open spec fn sparse_refusal() -> Seq<char> {
    "sparse files with extended headers are not supported in a template archive"@
}

fn block_is_sparse_header(content: &Vec<u8>, at: usize) -> (sparse: bool)
    requires
        at + 512 <= content.len(),
    ensures
        sparse == is_sparse_header(content@, at as int),
{
    let marked = content[at + 257] == 0x75 && content[at + 258] == 0x73 && content[at + 259] == 0x74
        && content[at + 260] == 0x61 && content[at + 261] == 0x72 && content[at + 262] == 0x20
        && content[at + 263] == 0x20 && content[at + 264] == 0x00;
    proof {
        let mark = content@.subrange(at + 257, at + 265);
        if marked {
            assert(mark =~= gnu_mark());
        } else {
            assert(mark[0] == content@[at + 257]);
            assert(mark[1] == content@[at + 258]);
            assert(mark[2] == content@[at + 259]);
            assert(mark[3] == content@[at + 260]);
            assert(mark[4] == content@[at + 261]);
            assert(mark[5] == content@[at + 262]);
            assert(mark[6] == content@[at + 263]);
            assert(mark[7] == content@[at + 264]);
        }
    }
    content[at + 156] == 0x53 && marked && content[at + 482] == 1
}

/// Whether some whole block of `content` reads as the extended header of a
/// sparse file.
pub fn holds_sparse_header(content: &Vec<u8>) -> (found: bool)
    ensures
        found == has_sparse_header(content@),
{
    let mut at: usize = 0;
    let ghost mut blocks: int = 0;
    while content.len() - at >= 512
        invariant
            at <= content.len(),
            at == blocks * 512,
            0 <= blocks,
            forall|k: int| 0 <= k < blocks ==> !is_sparse_block(content@, k),
        decreases content.len() - at,
    {
        if block_is_sparse_header(content, at) {
            proof {
                assert(is_sparse_block(content@, blocks));
            }
            return true;
        }
        at += 512;
        proof {
            blocks = blocks + 1;
        }
    }
    proof {
        assert forall|k: int| !is_sparse_block(content@, k) by {
            if 0 <= k && (k + 1) * 512 <= content.len() {
                assert(k < blocks);
            }
        }
    }
    false
}

/// What the `tar` crate finds in the tar file `content`: the raw path of
/// every entry, in the order of the entries, or the text of the first error
/// on the way.
pub uninterp spec fn tar_listing(content: Seq<u8>) -> Result<Seq<Seq<u8>>, Seq<char>>;

/// Walks the entries of `tar::Archive::new(content)` with `Archive::entries`
/// and takes `Entry::path_bytes` of each. Where the reader fails, the walk
/// ends with the error's text. The reader counts the blocks of a sparse
/// file's extended header without a guard against overflow, so content with
/// such a header is kept from it: it gets to that count only behind a header
/// of type `S` with the mark of the GNU format and the flag for an extended
/// header, and it reads headers at multiples of the block size only. The contract names the outcome; it
/// claims nothing else of it.
#[verifier::external_body]
fn entry_paths(content: &[u8]) -> (listed: Result<Vec<Vec<u8>>, String>)
    requires
        !has_sparse_header(content@),
    ensures
        listing_view(listed) == tar_listing(content@),
{
    let mut reader = tar::Archive::new(content);
    let mut paths = Vec::new();
    let entries = match reader.entries() {
        Ok(entries) => entries,
        Err(error) => return Err(error.to_string()),
    };
    for entry in entries {
        match entry {
            Ok(entry) => paths.push(entry.path_bytes().into_owned()),
            Err(error) => return Err(error.to_string()),
        }
    }
    Ok(paths)
}

/// What a template archive (a gzip-compressed tar file) holds: the raw path
/// of every entry, in the order of the entries; or the reason why it cannot
/// be read. The stream is read to its end, whatever its size. An archive
/// with the extended header of a sparse file in it is not read.
pub open spec fn archive_listing(archive: Seq<u8>) -> Result<Seq<Seq<u8>>, Seq<char>> {
    match gzip_content(archive, u64::MAX) {
        Ok(content) => if has_sparse_header(content) {
            Err(sparse_refusal())
        } else {
            tar_listing(content)
        },
        Err(reason) => Err(reason),
    }
}

/// Reads what a template archive holds, as [`archive_listing`] says it.
pub fn list_archive(archive: &Vec<u8>) -> (listed: Result<Vec<Vec<u8>>, String>)
    ensures
        listing_view(listed) == archive_listing(archive@),
{
    match inflate(archive.as_slice(), u64::MAX) {
        Ok(content) => {
            if holds_sparse_header(&content) {
                Err(
                    "sparse files with extended headers are not supported in a template archive".to_string(),
                )
            } else {
                entry_paths(content.as_slice())
            }
        },
        Err(reason) => Err(reason),
    }
}

/// `String::from_utf8`: the text that `bytes` encode, where they are UTF-8.
#[verifier::external_body]
fn utf8_text(bytes: Vec<u8>) -> (text: Option<String>)
    ensures
        match text {
            Some(text) => valid_utf8(bytes@) && text@ == decode_utf8(bytes@),
            None => !valid_utf8(bytes@),
        },
{
    String::from_utf8(bytes).ok()
}

/// The first separator stands at `at` when none stands before it.
pub proof fn lemma_first_separator(path: Seq<u8>, at: int)
    requires
        0 <= at <= path.len(),
        forall|j: int| 0 <= j < at ==> path[j] != SEPARATOR,
        at == path.len() || path[at] == SEPARATOR,
    ensures
        first_separator(path) == at,
    decreases path.len(),
{
    if at > 0 {
        let tail = path.drop_first();
        assert forall|j: int| 0 <= j < at - 1 implies tail[j] != SEPARATOR by {
            assert(tail[j] == path[j + 1]);
        }
        lemma_first_separator(tail, at - 1);
    }
}

/// Drops the first segment of `path` and the separator that ends it.
pub fn strip_first_segment(path: &Vec<u8>) -> (rest: Vec<u8>)
    ensures
        rest@ == behind_first_segment(path@),
{
    let mut cut: usize = 0;
    while cut < path.len() && path[cut] != SEPARATOR
        invariant
            cut <= path.len(),
            forall|j: int| 0 <= j < cut ==> path@[j] != SEPARATOR,
        decreases path.len() - cut,
    {
        cut += 1;
    }
    proof {
        lemma_first_separator(path@, cut as int);
    }
    let mut rest: Vec<u8> = Vec::new();
    if cut < path.len() {
        let mut i: usize = cut + 1;
        while i < path.len()
            invariant
                cut < i <= path.len(),
                rest@ == path@.subrange(cut + 1, i as int),
            decreases path.len() - i,
        {
            rest.push(path[i]);
            i += 1;
        }
    }
    rest
}

/// Where the entry stored under `path` is unpacked below `dir`, if it is
/// unpacked at all.
pub fn entry_target(dir: &str, path: &Vec<u8>) -> (found: Option<String>)
    ensures
        crate::text::text_view(found) == target(dir@, path@),
{
    match utf8_text(strip_first_segment(path)) {
        Some(rest) => {
            let reduced = normalize(rest.as_str());
            Some(join_path(dir, reduced.as_str()))
        },
        None => None,
    }
}

/// Where each of the entries stored under `paths` is unpacked below `dir`:
/// one answer for each entry, in their order.
pub fn unpack_targets(dir: &str, paths: &Vec<Vec<u8>>) -> (found: Vec<Option<String>>)
    ensures
        target_texts(found@) == targets(dir@, raw(paths@)),
{
    let mut found: Vec<Option<String>> = Vec::new();
    let mut i: usize = 0;
    while i < paths.len()
        invariant
            i <= paths.len(),
            found.len() == i,
            forall|k: int| 0 <= k < i ==> crate::text::text_view(#[trigger] found@[k]) == target(
                dir@,
                paths@[k]@,
            ),
        decreases paths.len() - i,
    {
        found.push(entry_target(dir, &paths[i]));
        i += 1;
    }
    found
}

/// What unpacking `archive` below `dir` comes to: where each entry lands, or
/// the reason why the archive cannot be read.
pub open spec fn unpack_plan(dir: Seq<char>, archive: Seq<u8>) -> Result<
    Seq<Option<Seq<char>>>,
    Seq<char>,
> {
    match archive_listing(archive) {
        Ok(paths) => Ok(targets(dir, paths)),
        Err(reason) => Err(reason),
    }
}

/// Reads the template archive and decides where each of its entries is
/// unpacked below `dir`. The archive is read to its end before anything is
/// decided, so one that is damaged is refused as a whole, with a file system
/// error that holds the reader's reason.
pub fn unpack_template(archive: &Vec<u8>, dir: &str) -> (plan: Result<
    Vec<Option<String>>,
    CliError,
>)
    ensures
        match plan {
            Ok(found) => unpack_plan(dir@, archive@) == Ok::<Seq<Option<Seq<char>>>, Seq<char>>(
                target_texts(found@),
            ),
            Err(error) => {
                &&& unpack_plan(dir@, archive@) is Err
                &&& error@ == CliErrorView::IoError(unpack_plan(dir@, archive@)->Err_0)
            },
        },
{
    match list_archive(archive) {
        Ok(paths) => Ok(unpack_targets(dir, &paths)),
        Err(reason) => Err(CliError::IoError(reason)),
    }
}

/// An entry that lies below a top directory lands below `dir` under its own
/// path without that top directory, however deep it lies: exactly the first
/// segment is gone. Here `top` is the top directory's name and `inner` are
/// the names from there down to the entry.
pub proof fn lemma_top_directory_is_stripped(dir: Seq<char>, top: Seq<u8>, inner: Seq<Seq<char>>)
    requires
        forall|j: int| 0 <= j < top.len() ==> top[j] != SEPARATOR,
        clean(inner),
    ensures
        behind_first_segment(top + seq![SEPARATOR] + encode_utf8(join(inner))) == encode_utf8(
            join(inner),
        ),
        target(dir, top + seq![SEPARATOR] + encode_utf8(join(inner))) == Some(
            adjoin(dir, join(inner)),
        ),
{
    let inner_path = join(inner);
    let rest = encode_utf8(inner_path);
    let path = top + seq![SEPARATOR] + rest;
    assert(behind_first_segment(path) == rest) by {
        assert(path[top.len() as int] == SEPARATOR);
        assert forall|j: int| 0 <= j < top.len() implies path[j] != SEPARATOR by {
            assert(path[j] == top[j]);
        }
        lemma_first_separator(path, top.len() as int);
        assert(first_separator(path) == top.len());
        assert(path.skip(top.len() as int + 1) =~= rest);
    }
    assert(valid_utf8(rest)) by {
        encode_utf8_valid_utf8(inner_path);
    }
    assert(decode_utf8(rest) == inner_path) by {
        encode_utf8_decode_utf8(inner_path);
    }
    assert(normal(inner_path) == inner_path) by {
        lemma_normal_of_clean(inner);
    }
    assert(target(dir, path) == Some(adjoin(dir, normal(decode_utf8(rest)))));
}

/// The paths of entries that all lie below the top directory `top`: the
/// names in `inner[i]` lead from there down to the entry `i`.
pub open spec fn below_top(top: Seq<u8>, inner: Seq<Seq<Seq<char>>>) -> Seq<Seq<u8>> {
    Seq::new(inner.len(), |i: int| top + seq![SEPARATOR] + encode_utf8(join(inner[i])))
}

/// Where the entries of [`below_top`] land below `dir`: each under its own
/// names.
pub open spec fn landed(dir: Seq<char>, inner: Seq<Seq<Seq<char>>>) -> Seq<Option<Seq<char>>> {
    Seq::new(inner.len(), |i: int| Some(adjoin(dir, join(inner[i]))))
}

/// An archive whose entries all lie below one top directory is unpacked
/// without it: every entry lands below `dir` under its own names, however
/// many those are, and nothing but the top directory is dropped from any
/// path.
pub proof fn lemma_common_top_is_stripped(
    dir: Seq<char>,
    archive: Seq<u8>,
    top: Seq<u8>,
    inner: Seq<Seq<Seq<char>>>,
)
    requires
        forall|j: int| 0 <= j < top.len() ==> top[j] != SEPARATOR,
        forall|i: int| 0 <= i < inner.len() ==> clean(#[trigger] inner[i]),
        archive_listing(archive) == Ok::<Seq<Seq<u8>>, Seq<char>>(below_top(top, inner)),
    ensures
        unpack_plan(dir, archive) == Ok::<Seq<Option<Seq<char>>>, Seq<char>>(landed(dir, inner)),
{
    let paths = below_top(top, inner);
    assert forall|i: int| 0 <= i < inner.len() implies #[trigger] targets(dir, paths)[i] == landed(
        dir,
        inner,
    )[i] by {
        lemma_top_directory_is_stripped(dir, top, inner[i]);
    }
    assert(targets(dir, paths) =~= landed(dir, inner));
}

} // verus!
