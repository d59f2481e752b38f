//! The project template: where its archive comes from, and what is kept of it
//! between runs.

use crate::errors::{CliError, CliErrorView};
use crate::text::text_view;
use vstd::prelude::*;

verus! {

/// A template archive, with the fingerprint of the remote version it was
/// taken from where that is known.
#[derive(Debug, Clone, PartialEq, Eq)]
pub struct Template {
    pub data: Vec<u8>,
    pub sha: Option<String>,
}

/// A [`Template`] as plain sequences.
pub struct TemplateView {
    pub data: Seq<u8>,
    pub sha: Option<Seq<char>>,
}

/// Optional bytes as an optional byte sequence.
pub open spec fn bytes_view(bytes: Option<Vec<u8>>) -> Option<Seq<u8>> {
    match bytes {
        Some(bytes) => Some(bytes@),
        None => None,
    }
}

impl View for Template {
    type V = TemplateView;

    open spec fn view(&self) -> TemplateView {
        TemplateView { data: self.data@, sha: text_view(self.sha) }
    }
}

/// An optional template as an optional [`TemplateView`].
pub open spec fn template_view(template: Option<Template>) -> Option<TemplateView> {
    match template {
        Some(template) => Some(template@),
        None => None,
    }
}

/// What the cache holds: the archive file and the fingerprint file, each
/// `None` where it is missing or unreadable.
#[derive(Debug, Clone, PartialEq, Eq)]
pub struct CacheRecord {
    pub data: Option<Vec<u8>>,
    pub sha: Option<String>,
}

/// A [`CacheRecord`] as plain sequences.
pub struct CacheRecordView {
    pub data: Option<Seq<u8>>,
    pub sha: Option<Seq<char>>,
}

impl View for CacheRecord {
    type V = CacheRecordView;

    open spec fn view(&self) -> CacheRecordView {
        CacheRecordView { data: bytes_view(self.data), sha: text_view(self.sha) }
    }
}

/// The template that a cache record stands for: there is one where the
/// archive file could be read, and it carries the fingerprint file's text
/// where that could be read too.
pub open spec fn cached_template(record: CacheRecordView) -> Option<TemplateView> {
    match record.data {
        Some(data) => Some(TemplateView { data, sha: record.sha }),
        None => None,
    }
}

/// What the cache holds once `template` was stored over `record`: the
/// template's archive and the template's fingerprint, whatever lay there
/// before. A template without fingerprint leaves none behind, so that no
/// archive is ever paired with the fingerprint of another.
pub open spec fn stored(record: CacheRecordView, template: TemplateView) -> CacheRecordView {
    CacheRecordView { data: Some(template.data), sha: template.sha }
}

/// The archive that ships with the tool, as a template. It stands for no
/// remote version, so it has no fingerprint.
pub fn baked_in_template(bundled: Vec<u8>) -> (template: Template)
    ensures
        template@ == (TemplateView { data: bundled@, sha: None }),
{
    Template { data: bundled, sha: None }
}

/// Reads a template out of what the cache holds.
pub fn get_cached_template(record: CacheRecord) -> (template: Option<Template>)
    ensures
        template_view(template) == cached_template(record@),
{
    match record.data {
        Some(data) => Some(Template { data, sha: record.sha }),
        None => None,
    }
}

/// What the cache holds after `template` was stored over `record`.
pub fn store_cached_template(record: CacheRecord, template: Template) -> (after: CacheRecord)
    ensures
        after@ == stored(record@, template@),
{
    CacheRecord { data: Some(template.data), sha: template.sha }
}

/// One change to the files of the cache.
#[derive(Debug, Clone, PartialEq, Eq)]
pub enum CacheWrite {
    /// Write the archive's bytes to the file at `path`.
    Archive { path: String, data: Vec<u8> },
    /// Write the fingerprint's text to the file at `path`.
    Fingerprint { path: String, sha: String },
    /// Remove the fingerprint's file at `path`, if there is one.
    ClearFingerprint { path: String },
}

/// A [`CacheWrite`] as plain sequences.
pub enum CacheWriteView {
    Archive { path: Seq<char>, data: Seq<u8> },
    Fingerprint { path: Seq<char>, sha: Seq<char> },
    ClearFingerprint { path: Seq<char> },
}

impl View for CacheWrite {
    type V = CacheWriteView;

    open spec fn view(&self) -> CacheWriteView {
        match self {
            CacheWrite::Archive { path, data } => CacheWriteView::Archive {
                path: path@,
                data: data@,
            },
            CacheWrite::Fingerprint { path, sha } => CacheWriteView::Fingerprint {
                path: path@,
                sha: sha@,
            },
            CacheWrite::ClearFingerprint { path } => CacheWriteView::ClearFingerprint {
                path: path@,
            },
        }
    }
}

/// The writes as plain sequences.
pub open spec fn write_views(writes: Seq<CacheWrite>) -> Seq<CacheWriteView> {
    Seq::new(writes.len(), |i: int| writes[i]@)
}

/// The archive's file in the cache directory `dir`.
pub open spec fn archive_file(dir: Seq<char>) -> Seq<char> {
    crate::paths::adjoin(dir, "vexide-template.tar.gz"@)
}

/// The fingerprint's file in the cache directory `dir`.
pub open spec fn fingerprint_file(dir: Seq<char>) -> Seq<char> {
    crate::paths::adjoin(dir, "cache-id.txt"@)
}

/// The changes that store `template` in the cache directory `dir`: the
/// archive is written, and the fingerprint is written where the template has
/// one and removed where it has none.
pub open spec fn writes_for(dir: Seq<char>, template: TemplateView) -> Seq<CacheWriteView> {
    seq![
        CacheWriteView::Archive { path: archive_file(dir), data: template.data },
        match template.sha {
            Some(sha) => CacheWriteView::Fingerprint { path: fingerprint_file(dir), sha },
            None => CacheWriteView::ClearFingerprint { path: fingerprint_file(dir) },
        },
    ]
}

/// What the cache holds after one change.
pub open spec fn written(record: CacheRecordView, write: CacheWriteView) -> CacheRecordView {
    match write {
        CacheWriteView::Archive { data, .. } => CacheRecordView { data: Some(data), ..record },
        CacheWriteView::Fingerprint { sha, .. } => CacheRecordView { sha: Some(sha), ..record },
        CacheWriteView::ClearFingerprint { .. } => CacheRecordView { sha: None, ..record },
    }
}

/// What the cache holds after the changes, one after the other.
pub open spec fn written_all(record: CacheRecordView, writes: Seq<CacheWriteView>)
    -> CacheRecordView
    decreases writes.len(),
{
    if writes.len() == 0 {
        record
    } else {
        written(written_all(record, writes.drop_last()), writes.last())
    }
}

/// The changes to the files of the cache directory `dir` that store
/// `template` there.
pub fn cache_writes(dir: &str, template: &Template) -> (writes: Vec<CacheWrite>)
    ensures
        write_views(writes@) == writes_for(dir@, template@),
{
    let mut writes: Vec<CacheWrite> = Vec::new();
    writes.push(
        CacheWrite::Archive { path: cache_archive_path(dir), data: copy_of(&template.data) },
    );
    match &template.sha {
        Some(sha) => writes.push(
            CacheWrite::Fingerprint { path: cache_fingerprint_path(dir), sha: sha.clone() },
        ),
        None => writes.push(CacheWrite::ClearFingerprint { path: cache_fingerprint_path(dir) }),
    }
    proof {
        assert(write_views(writes@) =~= writes_for(dir@, template@));
    }
    writes
}

fn copy_of(bytes: &Vec<u8>) -> (copy: Vec<u8>)
    ensures
        copy@ == bytes@,
{
    let mut copy: Vec<u8> = Vec::new();
    let mut i: usize = 0;
    while i < bytes.len()
        invariant
            i <= bytes.len(),
            copy@ == bytes@.take(i as int),
        decreases bytes.len() - i,
    {
        copy.push(bytes[i]);
        i += 1;
    }
    copy
}

/// The text that `serde_json` finds under `key` at the top of the JSON
/// document `document`: `None` where the text is no JSON document, where the
/// document is no object or has no such member, and where the member is no
/// string.
pub uninterp spec fn json_member_text(document: Seq<char>, key: Seq<char>) -> Option<Seq<char>>;

/// Parses `document` with `serde_json::from_str` into a `serde_json::Value`,
/// taking `Value::default()` (null) where that fails, indexes the value by
/// `key` and asks the member for its text with `Value::as_str`. The contract
/// names the outcome; it claims nothing else of it.
#[verifier::external_body]
fn member_text(document: &str, key: &str) -> (text: Option<String>)
    ensures
        text_view(text) == json_member_text(document@, key@),
{
    serde_json::from_str::<serde_json::Value>(document).unwrap_or_default()[key].as_str().map(
        str::to_owned,
    )
}

/// The member under which the remote source reports a commit's fingerprint.
pub open spec fn sha_key() -> Seq<char> {
    "sha"@
}

/// The document that stands in for a response whose body could not be read.
pub open spec fn empty_document() -> Seq<char> {
    "{}"@
}

/// The fingerprint that a response member stands for: the member's text, or
/// a malformed response where there is none.
pub open spec fn sha_of_member(member: Option<Seq<char>>) -> Result<Seq<char>, CliErrorView> {
    match member {
        Some(sha) => Ok(sha),
        None => Err(CliErrorView::MalformedResponse),
    }
}

/// A result of the fingerprint request, as plain sequences.
pub open spec fn sha_view(sha: Result<String, CliError>) -> Result<Seq<char>, CliErrorView> {
    match sha {
        Ok(sha) => Ok(sha@),
        Err(error) => Err(error@),
    }
}

/// Decides on the `sha` member of the remote source's response.
pub fn sha_from_member(member: Option<String>) -> (sha: Result<String, CliError>)
    ensures
        sha_view(sha) == sha_of_member(text_view(member)),
{
    match member {
        Some(sha) => Ok(sha),
        None => Err(CliError::MalformedResponse),
    }
}

/// What the request for the remote fingerprint came to: `Err` with the
/// reason where no response arrived, else the response's body, `None` where
/// the body could not be read.
pub open spec fn current_sha(reply: Result<Option<String>, String>) -> Result<
    Seq<char>,
    CliErrorView,
> {
    match reply {
        Err(reason) => Err(CliErrorView::ReqwestError(reason@)),
        Ok(Some(body)) => sha_of_member(json_member_text(body@, sha_key())),
        Ok(None) => sha_of_member(json_member_text(empty_document(), sha_key())),
    }
}

/// The fingerprint of the template's latest remote version, read from the
/// reply to the metadata request.
pub fn get_current_sha(reply: Result<Option<String>, String>) -> (sha: Result<String, CliError>)
    ensures
        sha_view(sha) == current_sha(reply),
{
    match reply {
        Err(reason) => Err(CliError::ReqwestError(reason)),
        Ok(Some(body)) => sha_from_member(member_text(body.as_str(), "sha")),
        Ok(None) => sha_from_member(member_text("{}", "sha")),
    }
}

/// A freshly downloaded archive with the fingerprint that the remote source
/// reported for it, if it reported one.
pub fn fetch_template(data: Vec<u8>, sha: Option<String>) -> (template: Template)
    ensures
        template@ == (TemplateView { data: data@, sha: text_view(sha) }),
{
    Template { data, sha }
}

/// Where the remote source reports its latest commit.
pub fn metadata_url() -> (url: String)
    ensures
        url@ == "https://api.github.com/repos/vexide/vexide-template/commits/main?per-page=1"@,
{
    "https://api.github.com/repos/vexide/vexide-template/commits/main?per-page=1".to_string()
}

/// Where the remote source serves the template's archive.
pub fn archive_url() -> (url: String)
    ensures
        url@ == "https://github.com/vexide/vexide-template/archive/refs/heads/main.tar.gz"@,
{
    "https://github.com/vexide/vexide-template/archive/refs/heads/main.tar.gz".to_string()
}

/// The name that the tool gives itself in its requests.
pub fn user_agent() -> (agent: String)
    ensures
        agent@ == "vexide/cargo-v5"@,
{
    "vexide/cargo-v5".to_string()
}

/// The archive's file in the cache directory `dir`.
pub fn cache_archive_path(dir: &str) -> (path: String)
    ensures
        path@ == archive_file(dir@),
{
    crate::paths::join_path(dir, "vexide-template.tar.gz")
}

/// The fingerprint's file in the cache directory `dir`.
pub fn cache_fingerprint_path(dir: &str) -> (path: String)
    ensures
        path@ == fingerprint_file(dir@),
{
    crate::paths::join_path(dir, "cache-id.txt")
}

/// What was stored is what is read back: after a template was stored, the
/// cache stands for that template, archive and fingerprint, and for nothing
/// of what lay there before. The changes of [`cache_writes`] store it so,
/// whatever the cache directory.
pub proof fn lemma_stored_is_read_back(
    record: CacheRecordView,
    template: TemplateView,
    dir: Seq<char>,
)
    ensures
        cached_template(stored(record, template)) == Some(template),
        written_all(record, writes_for(dir, template)) == stored(record, template),
{
    let writes = writes_for(dir, template);
    assert(writes.drop_last() == seq![writes[0]]);
    assert(writes.drop_last().drop_last() == Seq::<CacheWriteView>::empty());
    assert(written_all(record, writes.drop_last().drop_last()) == record);
    assert(written_all(record, writes.drop_last()) == written(record, writes[0]));
}

} // verus!
