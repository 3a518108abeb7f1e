//! Where the files of a document live, when its text is written out, and
//! how a password is kept.

use vstd::prelude::*;
use sha2::{Digest, Sha256};
use crate::document::{Doc, DocView};
use crate::state::{same_settings, AppState};
use crate::text::{
    push_char, replace_char, split_char, split_spec, str_eq, strip_spec, strip_suffix,
    trim_matches,
};
use crate::types::{DocEvent, WalEntryV2, WalEntryView, CURRENT_WAL_VERSION};

verus! {

/// Why a slug was refused.
#[derive(Debug, Clone, Copy, PartialEq, Eq)]
pub enum SlugError {
    /// Nothing is left of the slug once the `/` at its ends are gone.
    Empty,
    /// A segment is empty, `.` or `..`.
    InvalidSegment,
}

/// Why a request on the registry was refused.
#[derive(Debug, Clone, Copy, PartialEq, Eq)]
pub enum StateError {
    /// The slug names no place below the data directory.
    InvalidSlug(SlugError),
    /// No document is loaded for the slug.
    NotLoaded,
}

impl SlugError {
    /// The reason in words.
    pub fn message(&self) -> (res: &'static str)
        ensures
            res@ == (match *self {
                SlugError::Empty => "slug must not be empty"@,
                SlugError::InvalidSegment => "slug contains invalid path segments"@,
            }),
    {
        match self {
            SlugError::Empty => "slug must not be empty",
            SlugError::InvalidSegment => "slug contains invalid path segments",
        }
    }
}

/// A path, or the refusal of a slug, with the path as a sequence of code
/// points.
pub open spec fn path_view(res: Result<String, SlugError>) -> Result<Seq<char>, SlugError> {
    match res {
        Ok(path) => Ok(path@),
        Err(e) => Err(e),
    }
}

/// A segment that names a file or a directory below the one it stands in.
pub open spec fn normal_segment(seg: Seq<char>) -> bool {
    seg.len() > 0 && seg != "."@ && seg != ".."@
}

/// Every segment of `path`, as `/` parts them, is normal.
pub open spec fn all_normal(path: Seq<char>) -> bool {
    forall|i: int|
        0 <= i < split_spec(path, '/').len() ==> normal_segment(#[trigger] split_spec(path, '/')[i])
}

/// The relative path of a slug: the slug without the `/` at its ends,
/// accepted where something is left and every segment is normal.
pub open spec fn slug_rel_spec(slug: Seq<char>) -> Result<Seq<char>, SlugError> {
    let trimmed = strip_spec(slug, '/');
    if trimmed.len() == 0 {
        Err(SlugError::Empty)
    } else if all_normal(trimmed) {
        Ok(trimmed)
    } else {
        Err(SlugError::InvalidSegment)
    }
}

/// `base` and `rel` as one path: with a `/` between them unless `base` is
/// empty or ends with one.
pub open spec fn join_spec(base: Seq<char>, rel: Seq<char>) -> Seq<char> {
    if base.len() == 0 || base.last() == '/' {
        base + rel
    } else {
        base + seq!['/'] + rel
    }
}

/// The file of a slug below `base`, with the extension `ext`.
pub open spec fn slug_path_spec(base: Seq<char>, slug: Seq<char>, ext: Seq<char>) -> Result<
    Seq<char>,
    SlugError,
> {
    match slug_rel_spec(slug) {
        Ok(rel) => Ok(join_spec(base, rel + seq!['.'] + ext)),
        Err(e) => Err(e),
    }
}

/// Turns a slug into a path relative to a data directory. The `/` at the
/// ends of the slug do not count. A slug of which nothing is left, or with a
/// segment that is empty, `.` or `..`, is refused.
pub fn slug_to_rel_path(slug: &str) -> (res: Result<String, SlugError>)
    ensures
        path_view(res) == slug_rel_spec(slug@),
{
    let trimmed = trim_matches(slug, '/');
    if trimmed.unicode_len() == 0 {
        return Err(SlugError::Empty);
    }
    let segments = split_char(trimmed, '/');
    let mut k: usize = 0;
    while k < segments.len()
        invariant
            k <= segments.len(),
            trimmed@ == strip_spec(slug@, '/'),
            trimmed@.len() > 0,
            segments.deep_view() == split_spec(trimmed@, '/'),
            forall|i: int| 0 <= i < k ==> normal_segment(#[trigger] split_spec(trimmed@, '/')[i]),
        decreases segments.len() - k,
    {
        let seg = segments[k];
        if seg.unicode_len() == 0 || str_eq(seg, ".") || str_eq(seg, "..") {
            proof {
                let parts = split_spec(trimmed@, '/');
                assert(!normal_segment(parts[k as int]));
            }
            return Err(SlugError::InvalidSegment);
        }
        k += 1;
    }
    Ok(trimmed.to_owned())
}

/// Joins two paths with a `/`, unless the first is empty or ends with one.
fn join_path(base: &str, rel: &str) -> (res: String)
    ensures
        res@ == join_spec(base@, rel@),
{
    let n: usize = base.unicode_len();
    let mut out = String::from_str(base);
    if n > 0 && base.get_char(n - 1) != '/' {
        out.append("/");
        proof {
            reveal_strlit("/");
        }
    }
    out.append(rel);
    out
}

/// The file that belongs to `slug` below `base`, with the extension `ext`.
pub fn slug_path_with_extension(base: &str, slug: &str, ext: &str) -> (res: Result<
    String,
    SlugError,
>)
    ensures
        path_view(res) == slug_path_spec(base@, slug@, ext@),
{
    match slug_to_rel_path(slug) {
        Ok(rel) => {
            let mut file = rel;
            file.append(".");
            file.append(ext);
            proof {
                reveal_strlit(".");
                assert("."@ =~= seq!['.']);
            }
            Ok(join_path(base, file.as_str()))
        },
        Err(e) => Err(e),
    }
}

/// The file that holds the text of `slug` as it was last written out.
pub fn snapshot_path(state: &AppState, slug: &str) -> (res: Result<String, SlugError>)
    ensures
        path_view(res) == slug_path_spec(state.snap_dir@, slug@, "md"@),
{
    slug_path_with_extension(state.snap_dir.as_str(), slug, "md")
}

/// The file that holds the password hash of `slug`.
pub fn password_path(state: &AppState, slug: &str) -> (res: Result<String, SlugError>)
    ensures
        path_view(res) == slug_path_spec(state.snap_dir@, slug@, "pwd"@),
{
    slug_path_with_extension(state.snap_dir.as_str(), slug, "pwd")
}

/// The file that holds the write-ahead log of `slug`.
pub fn wal_path(state: &AppState, slug: &str) -> (res: Result<String, SlugError>)
    ensures
        path_view(res) == slug_path_spec(state.wal_dir@, slug@, "jsonl"@),
{
    slug_path_with_extension(state.wal_dir.as_str(), slug, "jsonl")
}

/// The slug whose write-ahead log is the file `rel`, a path relative to the
/// log directory: the path without `.jsonl` and with `/` for every `\`.
/// A file with another ending, or with nothing before the ending, is none.
pub open spec fn wal_slug_spec(rel: Seq<char>) -> Option<Seq<char>> {
    if ".jsonl"@.is_suffix_of(rel) {
        let stem = rel.subrange(0, rel.len() - ".jsonl"@.len());
        if stem.len() == 0 || stem.last() == '/' || stem.last() == '\\' {
            None
        } else {
            Some(stem.map_values(|c: char| if c == '\\' { '/' } else { c }))
        }
    } else {
        None
    }
}

/// The slug whose write-ahead log is the file `rel`, if it is one.
pub fn wal_slug(rel: &str) -> (res: Option<String>)
    ensures
        res.deep_view() == wal_slug_spec(rel@),
{
    match strip_suffix(rel, ".jsonl") {
        Some(stem) => {
            let n: usize = stem.unicode_len();
            if n == 0 {
                return None;
            }
            let last = stem.get_char(n - 1);
            if last == '/' || last == '\\' {
                None
            } else {
                Some(replace_char(stem, '\\', '/'))
            }
        },
        None => None,
    }
}

/// The write-ahead-log entry for `event` at the time `ts`.
pub fn wal_entry(event: DocEvent, ts: u64) -> (res: WalEntryV2)
    ensures
        res.deep_view() == (WalEntryView {
            version: CURRENT_WAL_VERSION,
            ts,
            event: event.deep_view(),
        }),
{
    WalEntryV2 { version: CURRENT_WAL_VERSION, ts, event }
}

/// The SHA-256 digest of a sequence of bytes.
pub uninterp spec fn sha256(data: Seq<u8>) -> Seq<u8>;

/// The lower-case hexadecimal digit for a number below sixteen.
pub open spec fn hex_digit(n: u8) -> char {
    if n < 10 {
        (48 + n) as u8 as char
    } else {
        (87 + n) as u8 as char
    }
}

/// Two lower-case hexadecimal digits for every byte, the high one first.
pub open spec fn hex_spec(data: Seq<u8>) -> Seq<char> {
    Seq::new(
        2 * data.len(),
        |i: int|
            if i % 2 == 0 {
                hex_digit(data[i / 2] / 16)
            } else {
                hex_digit(data[i / 2] % 16)
            },
    )
}

/// The form in which a password is kept: the digest of its UTF-8 bytes in
/// hexadecimal.
pub open spec fn password_hash_spec(password: Seq<char>) -> Seq<char> {
    hex_spec(sha256(vstd::utf8::encode_utf8(password)))
}

/// Calls `Digest::new`, `update` and `finalize` of the crate `sha2` on its
/// `Sha256`, which together compute the SHA-256 digest of `data`.
#[verifier::external_body]
fn sha256_digest(data: &[u8]) -> (res: Vec<u8>)
    ensures
        res@ == sha256(data@),
{
    let mut hasher = Sha256::new();
    hasher.update(data);
    hasher.finalize().to_vec()
}

/// The lower-case hexadecimal digit for a number below sixteen.
fn hex_char(n: u8) -> (res: char)
    requires
        n < 16,
    ensures
        res == hex_digit(n),
{
    if n < 10 {
        (48 + n) as char
    } else {
        (87 + n) as char
    }
}

/// Writes every byte as two lower-case hexadecimal digits, the high one
/// first.
pub fn hex_encode(data: &[u8]) -> (res: String)
    ensures
        res@ == hex_spec(data@),
{
    let mut out = String::new();
    let mut k: usize = 0;
    while k < data.len()
        invariant
            k <= data.len(),
            out@ == hex_spec(data@.take(k as int)),
        decreases data.len() - k,
    {
        let byte = data[k];
        push_char(&mut out, hex_char(byte / 16));
        push_char(&mut out, hex_char(byte % 16));
        k += 1;
    }
    out
}

/// The hash under which `password` is kept.
pub fn hash_password(password: &str) -> (res: String)
    ensures
        res@ == password_hash_spec(password@),
{
    let digest = sha256_digest(password.as_bytes());
    hex_encode(digest.as_slice())
}

/// When the text of a document is written out.
#[derive(Debug, Clone, Copy, PartialEq, Eq)]
pub enum FlushMode {
    /// After enough edits, or after an idle time since the last one.
    Opportunistic,
    /// Whenever an edit is waiting.
    Forced,
}

/// The time since the last edit of `doc`; zero where the clock is behind it.
pub open spec fn idle_time(doc: DocView, now: u64) -> int {
    if now >= doc.last_edit_ts {
        now - doc.last_edit_ts
    } else {
        0
    }
}

/// Whether `mode` asks for the text of `doc` to be written out at `now`.
pub open spec fn flush_due_spec(
    doc: DocView,
    mode: FlushMode,
    now: u64,
    idle_ms: u64,
    max_ops: usize,
) -> bool {
    match mode {
        FlushMode::Opportunistic => doc.since_flush >= max_ops || (doc.since_flush > 0
            && doc.last_edit_ts > 0 && idle_time(doc, now) >= idle_ms),
        FlushMode::Forced => doc.since_flush > 0,
    }
}

/// Whether the text of `doc` is written out at `now`: where `mode` asks for
/// it and an edit is waiting.
pub open spec fn flushes(
    doc: DocView,
    mode: FlushMode,
    now: u64,
    idle_ms: u64,
    max_ops: usize,
) -> bool {
    flush_due_spec(doc, mode, now, idle_ms, max_ops) && doc.since_flush > 0
}

/// Whether `mode` asks for the text of `doc` to be written out at `now`.
pub fn flush_due(doc: &Doc, mode: FlushMode, now: u64, idle_ms: u64, max_ops: usize) -> (res: bool)
    ensures
        res == flush_due_spec(doc.deep_view(), mode, now, idle_ms, max_ops),
{
    match mode {
        FlushMode::Opportunistic => {
            let due_to_ops = doc.since_flush >= max_ops;
            let due_to_idle = doc.since_flush > 0 && doc.last_edit_ts > 0 && now.saturating_sub(
                doc.last_edit_ts,
            ) >= idle_ms;
            due_to_ops || due_to_idle
        },
        FlushMode::Forced => doc.since_flush > 0,
    }
}

/// Marks `doc` as written out and returns the text to write; `None`, and no
/// change, where no edit is waiting.
pub fn take_snapshot(doc: &mut Doc) -> (res: Option<String>)
    ensures
        res is Some <==> old(doc).since_flush > 0,
        res matches Some(text) ==> text@ == old(doc).content@,
        final(doc).deep_view() == (DocView { since_flush: 0, ..old(doc).deep_view() }),
{
    if doc.since_flush == 0 {
        return None;
    }
    let text = doc.content.clone();
    doc.since_flush = 0;
    Some(text)
}

/// The documents after the one of `slug` was written out.
pub open spec fn docs_after_flush(docs: Map<Seq<char>, DocView>, slug: Seq<char>) -> Map<
    Seq<char>,
    DocView,
> {
    docs.insert(slug, DocView { since_flush: 0, ..docs[slug] })
}

/// Decides whether the text of `slug` is to be written out at `now`, and if
/// so marks the document as written out and returns the text.
pub fn flush_snapshot(state: &mut AppState, slug: &str, mode: FlushMode, now: u64) -> (res: Result<
    Option<String>,
    StateError,
>)
    requires
        old(state).wf(),
    ensures
        final(state).wf(),
        final(state)@.presence == old(state)@.presence,
        final(state)@.recent == old(state)@.recent,
        same_settings(*old(state), *final(state)),
        slug_rel_spec(slug@) matches Err(e) ==> res == Err::<Option<String>, StateError>(
            StateError::InvalidSlug(e),
        ),
        slug_rel_spec(slug@) is Ok && !old(state)@.docs.contains_key(slug@) ==> res == Err::<
            Option<String>,
            StateError,
        >(StateError::NotLoaded),
        res is Ok <==> slug_rel_spec(slug@) is Ok && old(state)@.docs.contains_key(slug@),
        res matches Ok(out) ==> (out is Some <==> flushes(
            old(state)@.docs[slug@],
            mode,
            now,
            old(state).flush_idle_ms,
            old(state).flush_max_ops,
        )),
        res matches Ok(Some(text)) ==> text@ == old(state)@.docs[slug@].content
            && final(state)@.docs == docs_after_flush(old(state)@.docs, slug@),
        !(res matches Ok(Some(_))) ==> final(state)@.docs == old(state)@.docs,
{
    match slug_to_rel_path(slug) {
        Ok(_) => {},
        Err(e) => {
            return Err(StateError::InvalidSlug(e));
        },
    }
    match state.registry.take_doc(slug) {
        Some(mut doc) => {
            let due = flush_due(&doc, mode, now, state.flush_idle_ms, state.flush_max_ops);
            let out = if due {
                take_snapshot(&mut doc)
            } else {
                None
            };
            state.registry.put_doc(slug, doc);
            Ok(out)
        },
        None => Err(StateError::NotLoaded),
    }
}

/// Writes the text of `slug` out if enough edits are waiting or the last
/// one is old enough: returns the text to write, and marks the document as
/// written out.
pub fn flush_snapshot_if_needed(state: &mut AppState, slug: &str, now: u64) -> (res: Result<
    Option<String>,
    StateError,
>)
    requires
        old(state).wf(),
    ensures
        final(state).wf(),
        final(state)@.presence == old(state)@.presence,
        final(state)@.recent == old(state)@.recent,
        same_settings(*old(state), *final(state)),
        slug_rel_spec(slug@) matches Err(e) ==> res == Err::<Option<String>, StateError>(
            StateError::InvalidSlug(e),
        ),
        slug_rel_spec(slug@) is Ok && !old(state)@.docs.contains_key(slug@) ==> res == Err::<
            Option<String>,
            StateError,
        >(StateError::NotLoaded),
        res is Ok <==> slug_rel_spec(slug@) is Ok && old(state)@.docs.contains_key(slug@),
        res matches Ok(out) ==> (out is Some <==> flushes(
            old(state)@.docs[slug@],
            FlushMode::Opportunistic,
            now,
            old(state).flush_idle_ms,
            old(state).flush_max_ops,
        )),
        res matches Ok(Some(text)) ==> text@ == old(state)@.docs[slug@].content
            && final(state)@.docs == docs_after_flush(old(state)@.docs, slug@),
        !(res matches Ok(Some(_))) ==> final(state)@.docs == old(state)@.docs,
{
    flush_snapshot(state, slug, FlushMode::Opportunistic, now)
}

/// Writes the text of `slug` out if any edit is waiting: returns the text to
/// write, and marks the document as written out.
pub fn flush_snapshot_force(state: &mut AppState, slug: &str, now: u64) -> (res: Result<
    Option<String>,
    StateError,
>)
    requires
        old(state).wf(),
    ensures
        final(state).wf(),
        final(state)@.presence == old(state)@.presence,
        final(state)@.recent == old(state)@.recent,
        same_settings(*old(state), *final(state)),
        slug_rel_spec(slug@) matches Err(e) ==> res == Err::<Option<String>, StateError>(
            StateError::InvalidSlug(e),
        ),
        slug_rel_spec(slug@) is Ok && !old(state)@.docs.contains_key(slug@) ==> res == Err::<
            Option<String>,
            StateError,
        >(StateError::NotLoaded),
        res is Ok <==> slug_rel_spec(slug@) is Ok && old(state)@.docs.contains_key(slug@),
        res matches Ok(out) ==> (out is Some <==> old(state)@.docs[slug@].since_flush > 0),
        res matches Ok(Some(text)) ==> text@ == old(state)@.docs[slug@].content
            && final(state)@.docs == docs_after_flush(old(state)@.docs, slug@),
        !(res matches Ok(Some(_))) ==> final(state)@.docs == old(state)@.docs,
{
    flush_snapshot(state, slug, FlushMode::Forced, now)
}

/// A path that is relative and whose every segment is normal: walking it
/// from a directory leads to a place below that directory.
pub open spec fn stays_below(path: Seq<char>) -> bool {
    path.len() > 0 && path[0] != '/' && all_normal(path)
}

/// Adding an ending without `/` to a path changes its last segment only.
proof fn lemma_split_with_ending(path: Seq<char>, ending: Seq<char>)
    requires
        forall|i: int| 0 <= i < ending.len() ==> ending[i] != '/',
    ensures
        split_spec(path + ending, '/').len() == split_spec(path, '/').len(),
        split_spec(path + ending, '/').last() == split_spec(path, '/').last() + ending,
        forall|i: int|
            0 <= i < split_spec(path, '/').len() - 1 ==> split_spec(path + ending, '/')[i]
                == split_spec(path, '/')[i],
    decreases path.len(),
{
    let whole = path + ending;
    crate::text::lemma_first_index(path, '/');
    crate::text::lemma_first_index(whole, '/');
    let i = crate::text::first_index(path, '/');
    if i < path.len() {
        assert(whole[i] == '/');
        assert(whole.skip(i + 1) =~= path.skip(i + 1) + ending);
        lemma_split_with_ending(path.skip(i + 1), ending);
    }
}

/// No slug leads out of the data directory: the relative path of a slug
/// that is accepted does not begin with `/`, and none of its segments is
/// empty, `.` or `..`. The same holds of the path with a file extension.
pub proof fn lemma_slug_stays_below(slug: Seq<char>, ext: Seq<char>)
    requires
        slug_rel_spec(slug) is Ok,
        forall|i: int| 0 <= i < ext.len() ==> ext[i] != '/',
    ensures
        stays_below(slug_rel_spec(slug)->Ok_0),
        stays_below(slug_rel_spec(slug)->Ok_0 + seq!['.'] + ext),
{
    reveal_strlit(".");
    reveal_strlit("..");
    let rel = slug_rel_spec(slug)->Ok_0;
    let parts = split_spec(rel, '/');
    crate::text::lemma_first_index(rel, '/');
    if rel[0] == '/' {
        assert(parts[0] =~= rel.take(0));
    }
    let ending = seq!['.'] + ext;
    let file = rel + ending;
    assert(file =~= rel + seq!['.'] + ext);
    lemma_split_with_ending(rel, ending);
    let named = split_spec(file, '/');
    assert forall|i: int| 0 <= i < named.len() implies normal_segment(#[trigger] named[i]) by {
        if i < named.len() - 1 {
            assert(normal_segment(parts[i]));
        } else {
            let last = parts[parts.len() - 1];
            assert((last + ending).len() >= 2);
            if last + ending == ".."@ {
                assert(last.len() == 1 && (last + ending)[0] == '.');
                assert(last =~= "."@);
            }
        }
    }
}

} // verus!
