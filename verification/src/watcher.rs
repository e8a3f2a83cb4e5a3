//! The watch-folder pipeline: which files are handled, duplicate events
//! suppressed, zips recognised once, and images routed to a preset and
//! queued as print jobs.

use vstd::prelude::*;
use sha2::{Digest, Sha256};
use crate::jobs::{JobQueueState, JobStatus, PrintJob, PrintJobView, status_updated};
use crate::models::{AppConfig, PostFileAction, Preset, PresetView, presets_view};
use crate::parser::{keyword_of_filename, parse_size_keyword};
use crate::text::{
    opt_str, chars_of, concat, concat_lit, decimal, decimal_exec, is_lit, lowercase, opt_view,
    same, string_of, strings_view, to_lowercase,
};

verus! {

/// State of the folder watcher.
#[derive(Clone, Copy, Debug, PartialEq, Eq, Structural)]
pub enum WatcherStatus {
    Idle,
    Active,
    Paused,
    Error,
}

// ───────────────────────── names for path queries ─────────────────────────

/// What `Path::extension` gives for a path, as text.
pub uninterp spec fn extension_of(path: Seq<char>) -> Option<Seq<char>>;

/// What `Path::file_name` gives for a path, as text.
pub uninterp spec fn file_name_of(path: Seq<char>) -> Option<Seq<char>>;

/// What `Path::parent` gives for a path, as text.
pub uninterp spec fn parent_of(path: Seq<char>) -> Option<Seq<char>>;

/// The name of the directory holding a path: the file name of its parent.
pub open spec fn parent_name_of(path: Seq<char>) -> Option<Seq<char>> {
    match parent_of(path) {
        Some(p) => file_name_of(p),
        None => None,
    }
}

/// Whether two paths are equal as `Path` values (component by component).
pub uninterp spec fn path_eq(a: Seq<char>, b: Seq<char>) -> bool;

/// `Path::extension`, converted to text (`None` when the path has no file
/// name, no dot in it, or only a leading dot).  The result is named by
/// `extension_of`.
#[verifier::external_body]
pub(crate) fn path_extension(path: &str) -> (res: Option<String>)
    ensures
        opt_view(res) == extension_of(path@),
{
    std::path::Path::new(path).extension().map(|e| e.to_string_lossy().into_owned())
}

/// `Path::file_name`, converted to text.  The result is named by `file_name_of`.
#[verifier::external_body]
pub(crate) fn path_file_name(path: &str) -> (res: Option<String>)
    ensures
        opt_view(res) == file_name_of(path@),
{
    std::path::Path::new(path).file_name().map(|n| n.to_string_lossy().into_owned())
}

/// `Path::parent`, converted to text.  The result is named by `parent_of`.
#[verifier::external_body]
pub(crate) fn path_parent(path: &str) -> (res: Option<String>)
    ensures
        opt_view(res) == parent_of(path@),
{
    std::path::Path::new(path).parent().map(|p| p.to_string_lossy().into_owned())
}

/// `Path` equality (`PartialEq for Path`).  The result is named by
/// `path_eq`; equal texts are equal paths.
#[verifier::external_body]
pub(crate) fn same_path(a: &str, b: &str) -> (res: bool)
    ensures
        res == path_eq(a@, b@),
        a@ == b@ ==> res,
{
    std::path::Path::new(a) == std::path::Path::new(b)
}

// ───────────────────────── file kinds ─────────────────────────

/// The image extensions handled, compared lower-cased.
pub open spec fn image_extension(lower: Seq<char>) -> bool {
    lower == "jpg"@ || lower == "jpeg"@ || lower == "png"@ || lower == "tiff"@ || lower == "tif"@
}

/// The path names a JPEG, PNG or TIFF image by its extension.
pub open spec fn image_path(path: Seq<char>) -> bool {
    match extension_of(path) {
        Some(e) => image_extension(lowercase(e)),
        None => false,
    }
}

/// The path names a zip archive by its extension.
pub open spec fn zip_path(path: Seq<char>) -> bool {
    match extension_of(path) {
        Some(e) => lowercase(e) == "zip"@,
        None => false,
    }
}

/// Whether a lower-cased extension is one of an image handled.
pub fn is_image_extension(lower: &str) -> (res: bool)
    ensures
        res == image_extension(lower@),
{
    let l = chars_of(lower);
    is_lit(&l, "jpg") || is_lit(&l, "jpeg") || is_lit(&l, "png") || is_lit(&l, "tiff") || is_lit(
        &l,
        "tif",
    )
}

/// Whether a lower-cased extension is that of a zip archive.
pub fn is_zip_extension(lower: &str) -> (res: bool)
    ensures
        res == (lower@ == "zip"@),
{
    let l = chars_of(lower);
    is_lit(&l, "zip")
}

/// Whether a lower-cased extension is that of a JPEG image.
pub fn is_jpeg_extension(lower: &str) -> (res: bool)
    ensures
        res == (lower@ == "jpg"@ || lower@ == "jpeg"@),
{
    let l = chars_of(lower);
    is_lit(&l, "jpg") || is_lit(&l, "jpeg")
}

/// The lower-cased extension of a path, when it has one.
fn lower_extension(path: &str) -> (res: Option<String>)
    ensures
        opt_view(res) == match extension_of(path@) {
            Some(e) => Some(lowercase(e)),
            None => None,
        },
{
    match path_extension(path) {
        Some(e) => {
            let ec = chars_of(e.as_str());
            let l = to_lowercase(&ec);
            Some(string_of(&l))
        },
        None => None,
    }
}

/// Whether the path names a supported image file.
pub fn is_image_file(path: &str) -> (res: bool)
    ensures
        res == image_path(path@),
{
    match lower_extension(path) {
        Some(l) => is_image_extension(l.as_str()),
        None => false,
    }
}

/// Whether the path names a zip archive.
pub fn is_zip_file(path: &str) -> (res: bool)
    ensures
        res == zip_path(path@),
{
    match lower_extension(path) {
        Some(l) => is_zip_extension(l.as_str()),
        None => false,
    }
}

/// The path names a JPEG image by its extension; a PDF wrapper embeds such
/// a file as it is.
pub open spec fn jpeg_path(path: Seq<char>) -> bool {
    match extension_of(path) {
        Some(e) => lowercase(e) == "jpg"@ || lowercase(e) == "jpeg"@,
        None => false,
    }
}

/// Whether the path names a JPEG image.
pub fn is_jpeg_file(path: &str) -> (res: bool)
    ensures
        res == jpeg_path(path@),
{
    match lower_extension(path) {
        Some(l) => is_jpeg_extension(l.as_str()),
        None => false,
    }
}

/// Files inside the "printed" and "processed_zips" subfolders are the
/// pipeline's own output.
pub open spec fn in_output_subfolder(path: Seq<char>) -> bool {
    parent_name_of(path) == Some("printed"@) || parent_name_of(path) == Some("processed_zips"@)
}

/// Whether the path lies in a "printed" or "processed_zips" subfolder.
pub fn is_in_output_subfolder(path: &str) -> (res: bool)
    ensures
        res == in_output_subfolder(path@),
{
    match path_parent(path) {
        Some(p) => match path_file_name(p.as_str()) {
            Some(n) => is_output_subfolder_name(n.as_str()),
            None => false,
        },
        None => false,
    }
}

/// Whether a folder name is that of an output subfolder.
pub fn is_output_subfolder_name(name: &str) -> (res: bool)
    ensures
        res == (name@ == "printed"@ || name@ == "processed_zips"@),
{
    let c = chars_of(name);
    is_lit(&c, "printed") || is_lit(&c, "processed_zips")
}

/// The kinds of file system event the watcher tells apart.
#[derive(Clone, Copy, Debug, PartialEq, Eq, Structural)]
pub enum WatchEventKind {
    /// A file was created.
    CreateFile,
    /// A file or its metadata was modified.
    Modify,
    /// Anything else (removal, access, a folder created, ...).
    Other,
}

/// Only creations of files and modifications are handled.
pub fn event_triggers_handling(kind: WatchEventKind) -> (res: bool)
    ensures
        res == (kind == WatchEventKind::CreateFile || kind == WatchEventKind::Modify),
{
    match kind {
        WatchEventKind::CreateFile => true,
        WatchEventKind::Modify => true,
        WatchEventKind::Other => false,
    }
}

/// The error of starting the watcher on a folder that does not exist.
pub fn missing_folder_message(folder: &str) -> (res: String)
    ensures
        res@ == "Watch folder does not exist: "@ + folder@,
{
    let head = chars_of("Watch folder does not exist: ");
    let f = chars_of(folder);
    let m = concat(&head, &f);
    string_of(&m)
}

// ───────────────────────── content hashes ─────────────────────────

/// What `Sha256::digest` returns for the bytes.
pub uninterp spec fn sha256(data: Seq<u8>) -> Seq<u8>;

/// Lower-case hexadecimal digit of a value below 16.
pub open spec fn hex_char(n: u8) -> char {
    if n < 10 {
        (n + 48) as char
    } else {
        (n + 87) as char
    }
}

/// Two lower-case hexadecimal digits per byte.
pub open spec fn hex_lower(data: Seq<u8>) -> Seq<char>
    decreases data.len(),
{
    if data.len() == 0 {
        Seq::empty()
    } else {
        hex_lower(data.drop_last()) + seq![hex_char(data.last() / 16), hex_char(data.last() % 16)]
    }
}

/// `Sha256::digest` of the bytes: 32 bytes, named by `sha256`.
#[verifier::external_body]
pub(crate) fn sha256_digest(data: &[u8]) -> (res: Vec<u8>)
    ensures
        res@ == sha256(data@),
        res@.len() == 32,
{
    Sha256::digest(data).to_vec()
}

/// `hex::encode`: each byte as two lower-case hexadecimal digits.
#[verifier::external_body]
pub(crate) fn hex_encode(data: &[u8]) -> (res: String)
    ensures
        res@ == hex_lower(data@),
{
    hex::encode(data)
}

/// The SHA-256 digest of a file's contents, in lower-case hexadecimal.
pub fn file_hash(data: &[u8]) -> (res: String)
    ensures
        res@ == hex_lower(sha256(data@)),
        res@.len() == 64,
{
    let digest = sha256_digest(data);
    proof {
        lemma_hex_len(digest@);
    }
    hex_encode(digest.as_slice())
}

proof fn lemma_hex_len(d: Seq<u8>)
    ensures
        hex_lower(d).len() == 2 * d.len(),
    decreases d.len(),
{
    if d.len() > 0 {
        lemma_hex_len(d.drop_last());
    }
}

// ───────────────────────── watcher state ─────────────────────────

/// How long after handling a file the same path is ignored: 5 s, in ns.
pub const DEDUP_WINDOW_NANOS: u64 = 5_000_000_000u64;

/// Time elapsed from `t` to `now`, never negative (as `Instant::duration_since`).
pub open spec fn elapsed(now: u64, t: u64) -> int {
    if now >= t {
        now - t
    } else {
        0
    }
}

/// An entry handled at `t` still blocks its path at `now`.
pub open spec fn fresh(now: u64, t: u64) -> bool {
    elapsed(now, t) < DEDUP_WINDOW_NANOS
}

/// The recently handled paths that still block at `now`.
pub open spec fn keep_fresh(v: Seq<(Seq<char>, u64)>, now: u64) -> Seq<(Seq<char>, u64)>
    decreases v.len(),
{
    if v.len() == 0 {
        v
    } else {
        keep_fresh(v.drop_last(), now) + if fresh(now, v.last().1) {
            seq![v.last()]
        } else {
            Seq::empty()
        }
    }
}

/// An entry's path is the path (as text, or as `Path` value).
pub open spec fn same_entry_path(a: Seq<char>, b: Seq<char>) -> bool {
    a == b || path_eq(a, b)
}

/// The path has an entry.
pub open spec fn seen(v: Seq<(Seq<char>, u64)>, path: Seq<char>) -> bool {
    exists|i: int| 0 <= i < v.len() && same_entry_path(#[trigger] v[i].0, path)
}

/// Handling an event for `path` at `now`: stale entries are dropped; the
/// event goes ahead unless the path still has an entry, and then the path
/// is entered at `now`.
pub open spec fn dedup_step(v: Seq<(Seq<char>, u64)>, path: Seq<char>, now: u64) -> (bool, Seq<
    (Seq<char>, u64),
>) {
    let r = keep_fresh(v, now);
    if seen(r, path) {
        (false, r)
    } else {
        (true, r.push((path, now)))
    }
}

/// A zip archive is extracted once per file name and content hash.
pub open spec fn zip_step(v: Seq<Seq<char>>, key: Seq<char>) -> (bool, Seq<Seq<char>>) {
    if v.contains(key) {
        (false, v)
    } else {
        (true, v.push(key))
    }
}

/// What the watcher does with a file event.
#[derive(Clone, Copy, Debug, PartialEq, Eq, Structural)]
pub enum FileAction {
    Ignore,
    ExtractZip,
    RouteImage,
}

/// The watcher's decisions for one event at `path` at `now`.
pub open spec fn file_step(v: Seq<(Seq<char>, u64)>, path: Seq<char>, now: u64) -> (FileAction, Seq<
    (Seq<char>, u64),
>) {
    if in_output_subfolder(path) {
        (FileAction::Ignore, v)
    } else {
        let (go, r) = dedup_step(v, path, now);
        if !go {
            (FileAction::Ignore, r)
        } else if zip_path(path) {
            (FileAction::ExtractZip, r)
        } else if image_path(path) {
            (FileAction::RouteImage, r)
        } else {
            (FileAction::Ignore, r)
        }
    }
}

/// What the watcher keeps between events; the file system watcher itself
/// is held next to it by the application.
pub struct WatcherState {
    pub status: WatcherStatus,
    /// Keys ("file name:content hash") of the zip archives already extracted.
    pub processed_zips: Vec<String>,
    /// Paths handled recently, with the monotonic time (ns) they were handled.
    pub recently_processed: Vec<(String, u64)>,
}

/// The views of the recently handled entries.
pub open spec fn recent_view(v: Seq<(String, u64)>) -> Seq<(Seq<char>, u64)> {
    v.map_values(|e: (String, u64)| (e.0@, e.1))
}

proof fn lemma_dedup_step_distinct(v: Seq<(Seq<char>, u64)>, path: Seq<char>, now: u64)
    ensures
        distinct_entries(v) ==> distinct_entries(dedup_step(v, path, now).1),
{
    if distinct_entries(v) {
        lemma_keep_fresh_distinct(v, now);
        let r = keep_fresh(v, now);
        if !seen(r, path) {
            let w = r.push((path, now));
            assert forall|i: int, j: int| 0 <= i < j < w.len() implies !same_entry_path(
                #[trigger] w[i].0,
                #[trigger] w[j].0,
            ) by {
                assert(w[i] == r[i]);
                if j < r.len() {
                    assert(w[j] == r[j]);
                } else {
                    assert(w[j].0 == path);
                }
            }
        }
    }
}

proof fn lemma_keep_fresh_distinct(v: Seq<(Seq<char>, u64)>, now: u64)
    requires
        distinct_entries(v),
    ensures
        distinct_entries(keep_fresh(v, now)),
    decreases v.len(),
{
    if v.len() > 0 {
        let d = v.drop_last();
        assert forall|i: int, j: int| 0 <= i < j < d.len() implies !same_entry_path(
            #[trigger] d[i].0,
            #[trigger] d[j].0,
        ) by {
            assert(d[i] == v[i] && d[j] == v[j]);
        }
        lemma_keep_fresh_distinct(d, now);
        lemma_keep_fresh_only_fresh(d, now);
        let kd = keep_fresh(d, now);
        let kv = keep_fresh(v, now);
        assert forall|i: int, j: int| 0 <= i < j < kv.len() implies !same_entry_path(
            #[trigger] kv[i].0,
            #[trigger] kv[j].0,
        ) by {
            assert(kv[i] == kd[i]);
            if j < kd.len() {
                assert(kv[j] == kd[j]);
            } else {
                assert(kv[j] == v.last());
                assert(fresh(now, kd[i].1));
                assert(d.contains(kd[i]));
                let m = choose|m: int| 0 <= m < d.len() && d[m] == kd[i];
                assert(v[m] == d[m]);
                assert(v[v.len() - 1] == v.last());
            }
        }
    }
}

proof fn lemma_zip_step_distinct(v: Seq<Seq<char>>, key: Seq<char>)
    ensures
        v.no_duplicates() ==> zip_step(v, key).1.no_duplicates(),
{
    if v.no_duplicates() && !v.contains(key) {
        let w = v.push(key);
        assert forall|i: int, j: int| 0 <= i < w.len() && 0 <= j < w.len() && i != j implies w[i]
            != w[j] by {
            if i < v.len() && j < v.len() {
                assert(w[i] == v[i] && w[j] == v[j]);
            } else if i < v.len() {
                assert(w[i] == v[i]);
            } else {
                assert(w[j] == v[j]);
            }
        }
    }
}

/// The views of the processed zip keys.
pub open spec fn zips_view(v: Seq<String>) -> Seq<Seq<char>> {
    v.map_values(|s: String| s@)
}

/// No two recently handled entries are for the same path (as a set of
/// paths keyed by `Path` equality would hold them).
pub open spec fn distinct_entries(v: Seq<(Seq<char>, u64)>) -> bool {
    forall|i: int, j: int|
        0 <= i < j < v.len() ==> !same_entry_path(#[trigger] v[i].0, #[trigger] v[j].0)
}

/// The watcher's state after it is stopped.
pub open spec fn stopped(s: WatcherState) -> WatcherState {
    WatcherState { status: WatcherStatus::Idle, ..s }
}

impl WatcherState {
    /// Each zip key is recorded once and each recently handled path has one
    /// entry.
    pub open spec fn wf(&self) -> bool {
        &&& zips_view(self.processed_zips@).no_duplicates()
        &&& distinct_entries(recent_view(self.recently_processed@))
    }

    /// An idle watcher that has handled nothing.
    pub fn new() -> (res: Self)
        ensures
            res.status == WatcherStatus::Idle,
            res.processed_zips@.len() == 0,
            res.recently_processed@.len() == 0,
            res.wf(),
    {
        WatcherState {
            status: WatcherStatus::Idle,
            processed_zips: Vec::new(),
            recently_processed: Vec::new(),
        }
    }

    /// The watcher is stopped: its status becomes Idle.
    pub fn stop(&mut self)
        ensures
            final(self).status == WatcherStatus::Idle,
            final(self).processed_zips == old(self).processed_zips,
            final(self).recently_processed == old(self).recently_processed,
            *final(self) == stopped(*old(self)),
            old(self).wf() ==> final(self).wf(),
    {
        self.status = WatcherStatus::Idle;
    }

    /// Pausing from the tray: an active watcher is stopped (its status
    /// becomes Idle) and `true` is returned; otherwise nothing changes.
    pub fn pause_if_active(&mut self) -> (res: bool)
        ensures
            res == (old(self).status == WatcherStatus::Active),
            final(self).status == if res {
                WatcherStatus::Idle
            } else {
                old(self).status
            },
            final(self).processed_zips == old(self).processed_zips,
            final(self).recently_processed == old(self).recently_processed,
            old(self).wf() ==> final(self).wf(),
    {
        if self.status == WatcherStatus::Active {
            self.status = WatcherStatus::Idle;
            true
        } else {
            false
        }
    }

    /// Whether an event for `path` at `now` goes ahead (see [`dedup_step`]).
    pub fn begin_processing(&mut self, path: &str, now: u64) -> (res: bool)
        ensures
            (res, recent_view(final(self).recently_processed@)) == dedup_step(
                recent_view(old(self).recently_processed@),
                path@,
                now,
            ),
            final(self).processed_zips == old(self).processed_zips,
            final(self).status == old(self).status,
            old(self).wf() ==> final(self).wf(),
    {
        proof {
            lemma_dedup_step_distinct(recent_view(self.recently_processed@), path@, now);
        }
        let (go, kept) = dedup(&self.recently_processed, path, now);
        self.recently_processed = kept;
        go
    }

    /// Whether the zip archive with this key is new; it is recorded as seen.
    pub fn mark_zip_processed(&mut self, key: String) -> (res: bool)
        ensures
            (res, zips_view(final(self).processed_zips@)) == zip_step(
                zips_view(old(self).processed_zips@),
                key@,
            ),
            final(self).recently_processed == old(self).recently_processed,
            final(self).status == old(self).status,
            old(self).wf() ==> final(self).wf(),
    {
        proof {
            lemma_zip_step_distinct(zips_view(self.processed_zips@), key@);
        }
        let ghost v = zips_view(self.processed_zips@);
        let kc = chars_of(key.as_str());
        let mut i: usize = 0;
        while i < self.processed_zips.len()
            invariant
                i <= self.processed_zips.len(),
                v == zips_view(self.processed_zips@),
                kc@ == key@,
                forall|k: int| 0 <= k < i ==> #[trigger] v[k] != key@,
            decreases self.processed_zips.len() - i,
        {
            let c = chars_of(self.processed_zips[i].as_str());
            assert(v[i as int] == self.processed_zips@[i as int]@);
            if same(&c, &kc) {
                assert(v.contains(key@));
                return false;
            }
            i = i + 1;
        }
        let ghost kv = key@;
        self.processed_zips.push(key);
        assert(zips_view(self.processed_zips@) =~= v.push(kv));
        true
    }

    /// The watcher's decision for an event at `path` at `now` (see
    /// [`file_step`]); the caller has checked that the path is a file.
    pub fn handle_file(&mut self, path: &str, now: u64) -> (res: FileAction)
        ensures
            (res, recent_view(final(self).recently_processed@)) == file_step(
                recent_view(old(self).recently_processed@),
                path@,
                now,
            ),
            final(self).processed_zips == old(self).processed_zips,
            final(self).status == old(self).status,
            old(self).wf() ==> final(self).wf(),
    {
        if is_in_output_subfolder(path) {
            return FileAction::Ignore;
        }
        if !self.begin_processing(path, now) {
            return FileAction::Ignore;
        }
        if is_zip_file(path) {
            FileAction::ExtractZip
        } else if is_image_file(path) {
            FileAction::RouteImage
        } else {
            FileAction::Ignore
        }
    }
}

/// The recently handled entries still fresh at `now`, and whether `path`
/// is among them; when it is not, it is entered at `now`.
fn dedup(recent: &Vec<(String, u64)>, path: &str, now: u64) -> (res: (bool, Vec<(String, u64)>))
    ensures
        (res.0, recent_view(res.1@)) == dedup_step(recent_view(recent@), path@, now),
{
    let ghost v = recent_view(recent@);
    let mut kept: Vec<(String, u64)> = Vec::new();
    let mut i: usize = 0;
    while i < recent.len()
        invariant
            i <= recent.len(),
            v == recent_view(recent@),
            recent_view(kept@) == keep_fresh(v.take(i as int), now),
        decreases recent.len() - i,
    {
        assert(v.take(i + 1).drop_last() =~= v.take(i as int));
        let t = recent[i].1;
        let e = elapsed_exec(now, t);
        if e < DEDUP_WINDOW_NANOS {
            let p = recent[i].0.clone();
            let ghost before = kept@;
            kept.push((p, t));
            assert(recent_view(kept@) =~= recent_view(before).push(v[i as int]));
        } else {
            assert(keep_fresh(v.take(i + 1), now) =~= keep_fresh(v.take(i as int), now));
        }
        i = i + 1;
    }
    assert(v.take(recent.len() as int) =~= v);
    let ghost r = recent_view(kept@);
    let mut j: usize = 0;
    let pc = chars_of(path);
    while j < kept.len()
        invariant
            j <= kept.len(),
            r == recent_view(kept@),
            r == keep_fresh(v, now),
            v == recent_view(recent@),
            pc@ == path@,
            forall|k: int| 0 <= k < j ==> !same_entry_path(#[trigger] r[k].0, path@),
        decreases kept.len() - j,
    {
        let kc = chars_of(kept[j].0.as_str());
        assert(r[j as int].0 == kept@[j as int].0@);
        if same(&kc, &pc) || same_path(kept[j].0.as_str(), path) {
            assert(seen(r, path@));
            return (false, kept);
        }
        j = j + 1;
    }
    assert(!seen(r, path@));
    let ghost before = kept@;
    kept.push((String::from_str(path), now));
    assert(recent_view(kept@) =~= recent_view(before).push((path@, now)));
    (true, kept)
}

fn elapsed_exec(now: u64, t: u64) -> (res: u64)
    ensures
        res == elapsed(now, t),
{
    if now >= t {
        now - t
    } else {
        0
    }
}

// ───────────────────────── zip archives ─────────────────────────

/// The key under which a zip archive with the given file name (none when
/// the path has none) is recorded: the name, a colon and the hash of its
/// contents.
pub open spec fn key_for(file_name: Option<Seq<char>>, hash: Seq<char>) -> Seq<char> {
    (match file_name {
        Some(n) => n,
        None => Seq::empty(),
    }) + ":"@ + hash
}

/// The key under which the zip archive at a path is recorded.
pub open spec fn zip_key(zip_path: Seq<char>, hash: Seq<char>) -> Seq<char> {
    key_for(file_name_of(zip_path), hash)
}

/// The key for a zip archive's file name and content hash (see [`key_for`]).
pub fn zip_key_for(file_name: Option<&str>, hash: &str) -> (res: String)
    ensures
        res@ == key_for(opt_str(file_name), hash@),
{
    let name: Vec<char> = match file_name {
        Some(n) => chars_of(n),
        None => Vec::new(),
    };
    let with_colon = concat_lit(&name, ":");
    let h = chars_of(hash);
    let r = concat(&with_colon, &h);
    string_of(&r)
}

/// The key under which the zip archive at a path is recorded (see [`zip_key`]).
pub fn processed_zip_key(zip_path: &str, hash: &str) -> (res: String)
    ensures
        res@ == zip_key(zip_path@, hash@),
{
    match path_file_name(zip_path) {
        Some(n) => zip_key_for(Some(n.as_str()), hash),
        None => zip_key_for(None, hash),
    }
}

/// What to do with one entry of a zip archive.
#[derive(Clone, Copy, Debug, PartialEq, Eq, Structural)]
pub enum ZipEntryPlan {
    /// A directory, a file that is not an image, or an image whose target
    /// already exists: left in the archive.
    Skip,
    /// The entry has no usable file name: extraction stops with an error.
    InvalidName,
    /// An image to write to the target path.
    Extract,
}

/// The plan for an entry: `out_path` is the target directory joined with
/// the entry's file name, `None` when the entry has no safe file name;
/// `target_exists` tells whether a file is already at that path.
pub open spec fn zip_entry_plan_spec(
    is_dir: bool,
    out_path: Option<Seq<char>>,
    target_exists: bool,
) -> ZipEntryPlan {
    if is_dir {
        ZipEntryPlan::Skip
    } else {
        match out_path {
            None => ZipEntryPlan::InvalidName,
            Some(p) => if image_path(p) && !target_exists {
                ZipEntryPlan::Extract
            } else {
                ZipEntryPlan::Skip
            },
        }
    }
}

/// The plan for one entry of a zip archive (see [`zip_entry_plan_spec`]):
/// only images are extracted, and an existing file is never overwritten.
pub fn zip_entry_plan(is_dir: bool, out_path: Option<&str>, target_exists: bool) -> (res:
    ZipEntryPlan)
    ensures
        res == zip_entry_plan_spec(is_dir, opt_str(out_path), target_exists),
{
    if is_dir {
        return ZipEntryPlan::Skip;
    }
    match out_path {
        None => ZipEntryPlan::InvalidName,
        Some(p) => if is_image_file(p) && !target_exists {
            ZipEntryPlan::Extract
        } else {
            ZipEntryPlan::Skip
        },
    }
}

/// The error of a zip entry without a usable file name.
pub open spec fn invalid_entry_name() -> Seq<char> {
    "Invalid zip entry name"@
}

/// Extracting the entries of one zip archive, in order: the targets of the
/// images written so far.
pub struct ZipExtraction {
    pub extracted: Vec<String>,
}

impl ZipExtraction {
    /// Nothing extracted yet.
    pub fn new() -> (res: Self)
        ensures
            res.extracted@.len() == 0,
    {
        ZipExtraction { extracted: Vec::new() }
    }

    /// The next entry of the archive (see [`zip_entry_plan_spec`]): `Ok(true)`
    /// when it is to be written to `out_path`, which is recorded; `Ok(false)`
    /// when it is left in the archive; the error [`invalid_entry_name`], which
    /// ends the extraction, when it has no usable file name.
    pub fn next_entry(&mut self, is_dir: bool, out_path: Option<&str>, target_exists: bool) -> (res:
        Result<bool, String>)
        ensures
            match zip_entry_plan_spec(is_dir, opt_str(out_path), target_exists) {
                ZipEntryPlan::Skip => res == Ok::<bool, String>(false)
                    && final(self).extracted@ == old(self).extracted@,
                ZipEntryPlan::InvalidName => (res matches Err(e) && e@ == invalid_entry_name())
                    && final(self).extracted@ == old(self).extracted@,
                ZipEntryPlan::Extract => res == Ok::<bool, String>(true) && out_path is Some
                    && strings_view(final(self).extracted@) == strings_view(
                    old(self).extracted@,
                ).push(opt_str(out_path)->0),
            },
    {
        match zip_entry_plan(is_dir, out_path, target_exists) {
            ZipEntryPlan::Skip => Ok(false),
            ZipEntryPlan::InvalidName => Err(String::from_str("Invalid zip entry name")),
            ZipEntryPlan::Extract => {
                match out_path {
                    Some(p) => {
                        let ghost before = strings_view(self.extracted@);
                        let t = String::from_str(p);
                        let ghost tv = t@;
                        self.extracted.push(t);
                        assert(strings_view(self.extracted@) =~= before.push(tv));
                        Ok(true)
                    },
                    None => Ok(false),
                }
            },
        }
    }

    /// The message reported once the archive is extracted (see
    /// [`extracted_message`]).
    pub fn message(&self) -> (res: String)
        ensures
            res@ == decimal(self.extracted@.len() as nat) + " files extracted"@,
    {
        extracted_message(self.extracted.len())
    }
}

/// The message reported after extracting `n` images.
pub fn extracted_message(n: usize) -> (res: String)
    ensures
        res@ == decimal(n as nat) + " files extracted"@,
{
    let d = decimal_exec(n as u64);
    let r = concat_lit(&d, " files extracted");
    string_of(&r)
}

// ───────────────────────── routing images ─────────────────────────

/// The first preset, from `i` on, whose keyword equals `kw` once both are
/// lower-cased.
pub open spec fn first_keyword_preset(v: Seq<PresetView>, kw: Seq<char>, i: int) -> Option<int>
    decreases v.len() - i,
{
    if i < 0 || i >= v.len() {
        None
    } else if lowercase(v[i].paper_size_keyword) == lowercase(kw) {
        Some(i)
    } else {
        first_keyword_preset(v, kw, i + 1)
    }
}

/// The first preset, from `i` on, with the given id.
pub open spec fn first_id_preset(v: Seq<PresetView>, id: u128, i: int) -> Option<int>
    decreases v.len() - i,
{
    if i < 0 || i >= v.len() {
        None
    } else if v[i].id == id {
        Some(i)
    } else {
        first_id_preset(v, id, i + 1)
    }
}

/// The preset an image goes to: the first whose keyword matches the
/// keyword of its name; a name without keyword goes to the default preset.
pub open spec fn matched_preset(
    v: Seq<PresetView>,
    default_id: Option<u128>,
    kw: Option<Seq<char>>,
) -> Option<int> {
    match kw {
        Some(k) => first_keyword_preset(v, k, 0),
        None => match default_id {
            Some(id) => first_id_preset(v, id, 0),
            None => None,
        },
    }
}

proof fn lemma_first_keyword_preset_bounds(v: Seq<PresetView>, kw: Seq<char>, i: int)
    ensures
        first_keyword_preset(v, kw, i) matches Some(k) ==> 0 <= k < v.len(),
    decreases v.len() - i,
{
    if 0 <= i < v.len() && lowercase(v[i].paper_size_keyword) != lowercase(kw) {
        lemma_first_keyword_preset_bounds(v, kw, i + 1);
    }
}

proof fn lemma_first_id_preset_bounds(v: Seq<PresetView>, id: u128, i: int)
    ensures
        first_id_preset(v, id, i) matches Some(k) ==> 0 <= k < v.len(),
    decreases v.len() - i,
{
    if 0 <= i < v.len() && v[i].id != id {
        lemma_first_id_preset_bounds(v, id, i + 1);
    }
}

/// The preset an image goes to (see [`matched_preset`]).
pub fn match_preset(presets: &Vec<Preset>, config: &AppConfig, keyword: &Option<String>) -> (res:
    Option<usize>)
    ensures
        res matches Some(i) ==> matched_preset(
            presets_view(presets@),
            config.default_preset_id,
            opt_view(*keyword),
        ) == Some(i as int) && i < presets.len(),
        res is None ==> matched_preset(
            presets_view(presets@),
            config.default_preset_id,
            opt_view(*keyword),
        ) is None,
{
    let ghost v = presets_view(presets@);
    match keyword {
        Some(kw) => {
            let kc = chars_of(kw.as_str());
            let kl = to_lowercase(&kc);
            let mut i: usize = 0;
            while i < presets.len()
                invariant
                    i <= presets.len(),
                    v == presets_view(presets@),
                    kl@ == lowercase(kw@),
                    opt_view(*keyword) == Some(kw@),
                    first_keyword_preset(v, kw@, 0) == first_keyword_preset(v, kw@, i as int),
                decreases presets.len() - i,
            {
                let pk = chars_of(presets[i].paper_size_keyword.as_str());
                let pl = to_lowercase(&pk);
                assert(v[i as int].paper_size_keyword == pk@);
                if same(&pl, &kl) {
                    return Some(i);
                }
                i = i + 1;
            }
            None
        },
        None => match config.default_preset_id {
            Some(id) => {
                let mut i: usize = 0;
                while i < presets.len()
                    invariant
                        i <= presets.len(),
                        v == presets_view(presets@),
                        config.default_preset_id == Some(id),
                        opt_view(*keyword) is None,
                        first_id_preset(v, id, 0) == first_id_preset(v, id, i as int),
                    decreases presets.len() - i,
                {
                    assert(v[i as int].id == presets@[i as int].id);
                    if presets[i].id == id {
                        return Some(i);
                    }
                    i = i + 1;
                }
                None
            },
            None => None,
        },
    }
}

/// What became of a routed image.
#[derive(Clone, Copy, Debug, PartialEq, Eq, Structural)]
pub enum ImageOutcome {
    /// Queued as printing with the preset at `preset_index`: submit it now.
    Print { job_id: u128, preset_index: usize },
    /// Queued as pending: the preset does not print automatically.
    Queued,
    /// No preset matched: queued as needing attention.
    Unmatched,
}

/// The message of a job no preset matched.
pub open spec fn no_preset_message(kw: Option<Seq<char>>) -> Seq<char> {
    "No preset matched"@ + match kw {
        Some(k) => " for keyword '"@ + k + "'"@,
        None => Seq::empty(),
    }
}

/// The file name of an image path, empty when it has none.
pub open spec fn image_file_name(path: Seq<char>) -> Seq<char> {
    match file_name_of(path) {
        Some(n) => n,
        None => Seq::empty(),
    }
}

/// The job an image named `name` at `path` is queued as.
pub open spec fn routed_job(
    j: PrintJobView,
    name: Seq<char>,
    path: Seq<char>,
    presets: Seq<PresetView>,
    config: AppConfig,
) -> bool {
    let kw = keyword_of_filename(name);
    &&& j.filename == name
    &&& j.file_path == path
    &&& j.completed_at is None
    &&& match matched_preset(presets, config.default_preset_id, kw) {
        Some(i) => {
            &&& j.preset_id == Some(presets[i].id)
            &&& j.preset_name == Some(presets[i].name)
            &&& j.error_message is None
            &&& j.status == if presets[i].auto_print {
                JobStatus::Printing
            } else {
                JobStatus::Pending
            }
        },
        None => {
            &&& j.preset_id is None
            &&& j.preset_name is None
            &&& j.status == JobStatus::NeedsAttention
            &&& j.error_message == Some(no_preset_message(kw))
        },
    }
}

/// What the caller is told about an image named `name` queued as job `j`:
/// print it now with the matched preset when that prints automatically.
pub open spec fn routing_outcome(
    res: ImageOutcome,
    j: PrintJobView,
    name: Seq<char>,
    presets: Seq<PresetView>,
    config: AppConfig,
) -> bool {
    match matched_preset(presets, config.default_preset_id, keyword_of_filename(name)) {
        Some(i) => if presets[i].auto_print {
            res == ImageOutcome::Print { job_id: j.id, preset_index: i as usize }
        } else {
            res == ImageOutcome::Queued
        },
        None => res == ImageOutcome::Unmatched,
    }
}

/// Routes an image, given its file name, to its preset and queues one job
/// for it: printing when the preset prints automatically, pending when it
/// does not, and needing attention (with a message) when no preset matches.
pub fn queue_image(
    queue: &mut JobQueueState,
    image_path: &str,
    filename: String,
    presets: &Vec<Preset>,
    config: &AppConfig,
) -> (res: ImageOutcome)
    ensures
        final(queue)@.len() == old(queue)@.len() + 1,
        final(queue)@.take(old(queue)@.len() as int) == old(queue)@,
        routed_job(final(queue)@.last(), filename@, image_path@, presets_view(presets@), *config),
        routing_outcome(res, final(queue)@.last(), filename@, presets_view(presets@), *config),
{
    let keyword = parse_size_keyword(filename.as_str());
    let ghost kw = keyword_of_filename(filename@);
    assert(opt_view(keyword) == kw);
    let matched = match_preset(presets, config, &keyword);
    let ghost before = queue@;
    match matched {
        Some(i) => {
            let preset = &presets[i];
            assert(presets_view(presets@)[i as int] == preset@);
            let mut job = PrintJob::new(
                filename,
                String::from_str(image_path),
                Some(preset.id),
                Some(preset.name.clone()),
            );
            if preset.auto_print {
                job.status = JobStatus::Printing;
                let job_id = job.id;
                queue.add_job(job);
                assert(queue@.take(before.len() as int) =~= before);
                ImageOutcome::Print { job_id, preset_index: i }
            } else {
                queue.add_job(job);
                assert(queue@.take(before.len() as int) =~= before);
                ImageOutcome::Queued
            }
        },
        None => {
            let mut job = PrintJob::new(filename, String::from_str(image_path), None, None);
            job.status = JobStatus::NeedsAttention;
            let head = chars_of("No preset matched");
            let msg = match &keyword {
                Some(k) => {
                    let a = concat_lit(&head, " for keyword '");
                    let kc = chars_of(k.as_str());
                    let b = concat(&a, &kc);
                    concat_lit(&b, "'")
                },
                None => {
                    let m = concat(&head, &Vec::new());
                    assert(m@ =~= head@ + Seq::<char>::empty());
                    m
                },
            };
            assert(msg@ =~= no_preset_message(kw));
            job.error_message = Some(string_of(&msg));
            queue.add_job(job);
            assert(queue@.take(before.len() as int) =~= before);
            ImageOutcome::Unmatched
        },
    }
}

/// Routes a new image to its preset and queues a job for it (see
/// [`queue_image`]); the job's file name is the path's, empty when it has none.
pub fn handle_image(
    queue: &mut JobQueueState,
    image_path: &str,
    presets: &Vec<Preset>,
    config: &AppConfig,
) -> (res: ImageOutcome)
    ensures
        final(queue)@.len() == old(queue)@.len() + 1,
        final(queue)@.take(old(queue)@.len() as int) == old(queue)@,
        routed_job(
            final(queue)@.last(),
            image_file_name(image_path@),
            image_path@,
            presets_view(presets@),
            *config,
        ),
        routing_outcome(
            res,
            final(queue)@.last(),
            image_file_name(image_path@),
            presets_view(presets@),
            *config,
        ),
{
    let filename: String = match path_file_name(image_path) {
        Some(n) => n,
        None => String::new(),
    };
    queue_image(queue, image_path, filename, presets, config)
}

/// Records the result of printing a job: Complete on success, Error with
/// the message on failure.  On success the configured post-print action
/// is returned for the caller to perform on the image.
pub fn finish_print(
    queue: &mut JobQueueState,
    job_id: u128,
    result: Result<(), String>,
    config: &AppConfig,
) -> (res: Option<PostFileAction>)
    ensures
        match result {
            Ok(()) => res == Some(config.post_print_action) && exists|at|
                final(queue)@ == #[trigger] status_updated(
                    old(queue)@,
                    job_id,
                    JobStatus::Complete,
                    None,
                    at,
                ),
            Err(e) => res is None && exists|at|
                final(queue)@ == #[trigger] status_updated(
                    old(queue)@,
                    job_id,
                    JobStatus::Error,
                    Some(e@),
                    at,
                ),
        },
{
    match result {
        Ok(()) => {
            queue.update_status(job_id, JobStatus::Complete, None);
            Some(config.post_print_action)
        },
        Err(e) => {
            queue.update_status(job_id, JobStatus::Error, Some(e));
            None
        },
    }
}

// ───────────────────────── laws ─────────────────────────

proof fn lemma_keep_fresh_push(s: Seq<(Seq<char>, u64)>, e: (Seq<char>, u64), now: u64)
    ensures
        keep_fresh(s.push(e), now) == keep_fresh(s, now) + if fresh(now, e.1) {
            seq![e]
        } else {
            Seq::empty()
        },
{
    assert(s.push(e).drop_last() =~= s);
}

proof fn lemma_keep_fresh_only_fresh(v: Seq<(Seq<char>, u64)>, now: u64)
    ensures
        forall|k: int|
            0 <= k < keep_fresh(v, now).len() ==> fresh(now, #[trigger] keep_fresh(v, now)[k].1)
                && v.contains(keep_fresh(v, now)[k]),
    decreases v.len(),
{
    if v.len() > 0 {
        let d = v.drop_last();
        lemma_keep_fresh_only_fresh(d, now);
        let kd = keep_fresh(d, now);
        let kv = keep_fresh(v, now);
        assert forall|k: int| 0 <= k < kv.len() implies fresh(now, #[trigger] kv[k].1) && v.contains(
            kv[k],
        ) by {
            if k < kd.len() {
                assert(kv[k] == kd[k]);
                assert(fresh(now, kd[k].1));
                assert(d.contains(kd[k]));
                let j = choose|j: int| 0 <= j < d.len() && d[j] == kd[k];
                assert(v[j] == d[j]);
            } else {
                assert(kv[k] == v.last());
                assert(v[v.len() - 1] == v.last());
            }
        }
    }
}

/// A second event for a path, within the window after an event for it
/// went ahead, is ignored.
pub proof fn law_repeat_within_window_ignored(
    v: Seq<(Seq<char>, u64)>,
    path: Seq<char>,
    t1: u64,
    t2: u64,
)
    requires
        dedup_step(v, path, t1).0,
        t1 <= t2,
        t2 - t1 < DEDUP_WINDOW_NANOS,
    ensures
        !dedup_step(dedup_step(v, path, t1).1, path, t2).0,
{
    let r1 = keep_fresh(v, t1);
    lemma_keep_fresh_push(r1, (path, t1), t2);
    let r2 = keep_fresh(r1.push((path, t1)), t2);
    assert(r2[r2.len() - 1] == (path, t1));
    assert(same_entry_path(r2[r2.len() - 1].0, path));
    assert(seen(r2, path));
}

/// An event for a path goes ahead when every earlier entry for that path
/// is at least the window old.
pub proof fn law_stale_entries_do_not_block(v: Seq<(Seq<char>, u64)>, path: Seq<char>, now: u64)
    requires
        forall|i: int| 0 <= i < v.len() && same_entry_path(#[trigger] v[i].0, path) ==> !fresh(now, v[i].1),
    ensures
        dedup_step(v, path, now).0,
        dedup_step(v, path, now).1.last() == (path, now),
{
    lemma_keep_fresh_only_fresh(v, now);
    let r = keep_fresh(v, now);
    if seen(r, path) {
        let k = choose|k: int| 0 <= k < r.len() && same_entry_path(#[trigger] r[k].0, path);
        assert(fresh(now, r[k].1));
        let j = choose|j: int| 0 <= j < v.len() && v[j] == r[k];
        assert(same_entry_path(v[j].0, path));
    }
}

/// A zip archive is extracted the first time its key is seen and never again.
pub proof fn law_zip_extracted_once(v: Seq<Seq<char>>, key: Seq<char>)
    ensures
        !v.contains(key) ==> zip_step(v, key).0,
        !zip_step(zip_step(v, key).1, key).0,
        zip_step(zip_step(v, key).1, key).1 == zip_step(v, key).1,
{
    if !v.contains(key) {
        assert(v.push(key)[v.len() as int] == key);
    }
}

/// The watcher's memory after a run of events, each a path and the time it
/// came at, handled in order.
pub open spec fn dedup_run(v: Seq<(Seq<char>, u64)>, es: Seq<(Seq<char>, u64)>) -> Seq<
    (Seq<char>, u64),
>
    decreases es.len(),
{
    if es.len() == 0 {
        v
    } else {
        dedup_run(dedup_step(v, es[0].0, es[0].1).1, es.drop_first())
    }
}

proof fn lemma_keep_fresh_keeps(v: Seq<(Seq<char>, u64)>, e: (Seq<char>, u64), now: u64)
    requires
        v.contains(e),
        fresh(now, e.1),
    ensures
        keep_fresh(v, now).contains(e),
    decreases v.len(),
{
    let d = v.drop_last();
    if v.last() == e {
        lemma_keep_fresh_push(d, e, now);
        assert(v == d.push(e));
        let k = keep_fresh(v, now);
        assert(k[k.len() - 1] == e);
    } else {
        let j = choose|j: int| 0 <= j < v.len() && v[j] == e;
        assert(j < v.len() - 1);
        assert(d[j] == e);
        lemma_keep_fresh_keeps(d, e, now);
        assert(v == d.push(v.last()));
        lemma_keep_fresh_push(d, v.last(), now);
        let kd = keep_fresh(d, now);
        let i = choose|i: int| 0 <= i < kd.len() && kd[i] == e;
        assert(keep_fresh(v, now)[i] == e);
    }
}

proof fn lemma_run_keeps(v: Seq<(Seq<char>, u64)>, es: Seq<(Seq<char>, u64)>, e: (Seq<char>, u64))
    requires
        v.contains(e),
        forall|i: int| 0 <= i < es.len() ==> fresh(#[trigger] es[i].1, e.1),
    ensures
        dedup_run(v, es).contains(e),
    decreases es.len(),
{
    if es.len() > 0 {
        assert(fresh(es[0].1, e.1));
        lemma_keep_fresh_keeps(v, e, es[0].1);
        let r = keep_fresh(v, es[0].1);
        let next = dedup_step(v, es[0].0, es[0].1).1;
        if !seen(r, es[0].0) {
            let i = choose|i: int| 0 <= i < r.len() && r[i] == e;
            assert(next[i] == e);
        }
        assert(next.contains(e));
        assert forall|i: int| 0 <= i < es.drop_first().len() implies fresh(
            #[trigger] es.drop_first()[i].1,
            e.1,
        ) by {
            assert(es.drop_first()[i] == es[i + 1]);
        }
        lemma_run_keeps(next, es.drop_first(), e);
    }
}

/// Once an event for a path has gone ahead at `t0`, every later event for
/// that path within the window is ignored, whatever events for other paths
/// come in between: the path stays entered at `t0`.
pub proof fn law_duplicates_ignored_within_window(
    v: Seq<(Seq<char>, u64)>,
    path: Seq<char>,
    t0: u64,
    es: Seq<(Seq<char>, u64)>,
    t1: u64,
)
    requires
        dedup_step(v, path, t0).0,
        forall|i: int| 0 <= i < es.len() ==> t0 <= #[trigger] es[i].1 && es[i].1 - t0 < DEDUP_WINDOW_NANOS,
        t0 <= t1,
        t1 - t0 < DEDUP_WINDOW_NANOS,
    ensures
        dedup_run(dedup_step(v, path, t0).1, es).contains((path, t0)),
        !dedup_step(dedup_run(dedup_step(v, path, t0).1, es), path, t1).0,
        dedup_step(dedup_run(dedup_step(v, path, t0).1, es), path, t1).1.contains((path, t0)),
{
    let r0 = dedup_step(v, path, t0).1;
    let k0 = keep_fresh(v, t0);
    assert(r0 == k0.push((path, t0)));
    assert(r0[r0.len() - 1] == (path, t0));
    assert forall|i: int| 0 <= i < es.len() implies fresh(#[trigger] es[i].1, t0) by {}
    lemma_run_keeps(r0, es, (path, t0));
    let run = dedup_run(r0, es);
    lemma_keep_fresh_keeps(run, (path, t0), t1);
    let r = keep_fresh(run, t1);
    let i = choose|i: int| 0 <= i < r.len() && r[i] == (path, t0);
    assert(same_entry_path(r[i].0, path));
    assert(seen(r, path));
}

/// Stopping the watcher makes it idle and keeps what it remembers; stopping
/// it again changes nothing.
pub proof fn law_stop_idempotent(s: WatcherState)
    ensures
        stopped(s).status == WatcherStatus::Idle,
        stopped(s).processed_zips == s.processed_zips,
        stopped(s).recently_processed == s.recently_processed,
        stopped(stopped(s)) == stopped(s),
        s.wf() ==> stopped(s).wf(),
{
}

/// Files in the pipeline's own output subfolders are never handled, and
/// leave the watcher's memory as it was.
pub proof fn law_output_subfolder_ignored(v: Seq<(Seq<char>, u64)>, path: Seq<char>, now: u64)
    requires
        in_output_subfolder(path),
    ensures
        file_step(v, path, now) == (FileAction::Ignore, v),
{
}

proof fn lemma_first_keyword_preset_first(v: Seq<PresetView>, kw: Seq<char>, i: int, f: int)
    requires
        0 <= i,
        first_keyword_preset(v, kw, i) == Some(f),
    ensures
        i <= f < v.len(),
        lowercase(v[f].paper_size_keyword) == lowercase(kw),
        forall|j: int| i <= j < f ==> lowercase(#[trigger] v[j].paper_size_keyword) != lowercase(kw),
    decreases v.len() - i,
{
    if lowercase(v[i].paper_size_keyword) != lowercase(kw) {
        lemma_first_keyword_preset_first(v, kw, i + 1, f);
    }
}

/// An image whose name holds a keyword goes to the first preset whose
/// keyword equals it, compared case-insensitively; the default preset is
/// never used for it, so an unknown keyword leaves the image unmatched.
pub proof fn law_keyword_routes_to_first_match(
    v: Seq<PresetView>,
    default_id: Option<u128>,
    kw: Seq<char>,
)
    ensures
        matched_preset(v, default_id, Some(kw)) == matched_preset(v, None, Some(kw)),
        matched_preset(v, default_id, Some(kw)) matches Some(f) ==> {
            &&& 0 <= f < v.len()
            &&& lowercase(v[f].paper_size_keyword) == lowercase(kw)
            &&& forall|j: int| 0 <= j < f ==> lowercase(#[trigger] v[j].paper_size_keyword) != lowercase(kw)
        },
        (forall|j: int| 0 <= j < v.len() ==> lowercase(#[trigger] v[j].paper_size_keyword) != lowercase(kw))
            ==> matched_preset(v, default_id, Some(kw)) is None,
{
    if let Some(f) = first_keyword_preset(v, kw, 0) {
        lemma_first_keyword_preset_first(v, kw, 0, f);
    }
}

proof fn lemma_first_id_preset_found(v: Seq<PresetView>, id: u128, i: int, f: int)
    requires
        0 <= i,
        first_id_preset(v, id, i) == Some(f),
    ensures
        i <= f < v.len(),
        v[f].id == id,
    decreases v.len() - i,
{
    if v[i].id != id {
        lemma_first_id_preset_found(v, id, i + 1, f);
    }
}

/// An image whose name holds no keyword goes to the default preset, and
/// to nothing when there is no default or it is not among the presets.
pub proof fn law_no_keyword_uses_default(v: Seq<PresetView>, default_id: Option<u128>)
    ensures
        default_id is None ==> matched_preset(v, default_id, None) is None,
        matched_preset(v, default_id, None) matches Some(f) ==> 0 <= f < v.len() && default_id
            == Some(v[f].id),
{
    if let Some(id) = default_id {
        if let Some(f) = first_id_preset(v, id, 0) {
            lemma_first_id_preset_found(v, id, 0, f);
        }
    }
}

} // verus!
