//! The polling watcher: remembers the fingerprint of the last scan and says
//! whether the next one differs.

use super::utils::fingerprint;
use super::utils::is_large;
use super::utils::lemma_content_change_detected;
use super::utils::lemma_excluded_file_ignored;
use super::utils::text_signature;
use super::utils::valid_name;
use super::utils::DAMPING;
use super::utils::hash_dir;
use super::utils::views;
use super::utils::FileRecord;
use super::utils::FileView;
use super::ContentHasher;
use vstd::prelude::*;

verus! {

/// Why a watcher could not be made.
#[derive(Clone, Copy, Debug, PartialEq, Eq, Structural)]
pub enum WatchError {
    /// The root of the watched tree could not be listed.
    RootUnreadable,
}

/// A watcher as a mathematical value.
pub struct WatcherView {
    pub folder: Seq<char>,
    pub hasher: ContentHasher,
    /// The fingerprint of the last scan that succeeded.
    pub hashed_files: u64,
}

impl WatcherView {
    /// The watcher made from a first scan.
    pub open spec fn watch(folder: Seq<char>, hasher: ContentHasher, files: Seq<FileView>)
        -> WatcherView {
        WatcherView { folder, hasher, hashed_files: fingerprint(hasher, files) }
    }

    /// One poll: the watcher afterwards, and whether a change is reported.
    /// A scan that failed (`None`) reports no change and is forgotten.
    pub open spec fn poll(self, scan: Option<Seq<FileView>>) -> (WatcherView, bool) {
        match scan {
            Some(files) => {
                let new_hash = fingerprint(self.hasher, files);
                (WatcherView { hashed_files: new_hash, ..self }, self.hashed_files != new_hash)
            },
            None => (self, false),
        }
    }
}

/// The scan handed to a watcher, as a mathematical value.
pub open spec fn scan_view(scan: Option<&Vec<FileRecord>>) -> Option<Seq<FileView>> {
    match scan {
        Some(files) => Some(views(files@)),
        None => None,
    }
}

/// Detects changes in a directory tree by comparing fingerprints of
/// successive scans.
pub struct PollWatcher {
    folder: String,
    hasher: ContentHasher,
    hashed_files: u64,
}

impl View for PollWatcher {
    type V = WatcherView;

    closed spec fn view(&self) -> WatcherView {
        WatcherView { folder: self.folder@, hasher: self.hasher, hashed_files: self.hashed_files }
    }
}

impl PollWatcher {
    /// Makes a watcher for `folder` from a first scan of it. `scan` is `None`
    /// where the root could not be listed, and no watcher is made then.
    pub fn new(folder: String, hasher: ContentHasher, scan: Option<&Vec<FileRecord>>) -> (made:
        Result<PollWatcher, WatchError>)
        ensures
            match scan {
                Some(files) => made is Ok && made->Ok_0@ == WatcherView::watch(
                    folder@,
                    hasher,
                    views(files@),
                ),
                None => made == Err::<PollWatcher, WatchError>(WatchError::RootUnreadable),
            },
    {
        match scan {
            Some(files) => {
                let hashed_files = hash_dir(&hasher, files);
                Ok(PollWatcher { folder, hasher, hashed_files })
            },
            None => Err(WatchError::RootUnreadable),
        }
    }

    /// The watched folder.
    pub fn folder(&self) -> (folder: &String)
        ensures
            folder@ == self@.folder,
    {
        &self.folder
    }

    /// The hasher that a scan's fingerprint is computed with.
    pub fn hasher(&self) -> (hasher: &ContentHasher)
        ensures
            *hasher == self@.hasher,
    {
        &self.hasher
    }

    /// The fingerprint of the last scan that succeeded.
    pub fn hashed_files(&self) -> (hash: u64)
        ensures
            hash == self@.hashed_files,
    {
        self.hashed_files
    }

    /// Takes the next scan and says whether the tree changed since the last
    /// one. A scan that failed (`None`) counts as unchanged.
    pub fn poll(&mut self, scan: Option<&Vec<FileRecord>>) -> (changed: bool)
        ensures
            (final(self)@, changed) == old(self)@.poll(scan_view(scan)),
    {
        match scan {
            Some(files) => {
                let new_hash = hash_dir(&self.hasher, files);
                let changed = self.hashed_files != new_hash;
                self.hashed_files = new_hash;
                changed
            },
            None => false,
        }
    }
}

/// A watcher made from a scan reports no change when polled over the same
/// scan, and any watcher polled twice over one scan reports no change the
/// second time.
pub proof fn lemma_unchanged_tree_polls_unchanged(
    folder: Seq<char>,
    hasher: ContentHasher,
    watcher: WatcherView,
    files: Seq<FileView>,
)
    ensures
        WatcherView::watch(folder, hasher, files).poll(Some(files)) == (
            WatcherView::watch(folder, hasher, files),
            false,
        ),
        watcher.poll(Some(files)).0.poll(Some(files)) == (watcher.poll(Some(files)).0, false),
{
}

/// A file with an excluded name that appears in the tree is not reported as
/// a change.
pub proof fn lemma_excluded_file_polls_unchanged(
    watcher: WatcherView,
    files: Seq<FileView>,
    i: int,
    extra: FileView,
)
    requires
        watcher.hashed_files == fingerprint(watcher.hasher, files),
        0 <= i <= files.len(),
        !valid_name(extra.path),
    ensures
        watcher.poll(Some(files.insert(i, extra))) == (watcher, false),
{
    lemma_excluded_file_ignored(watcher.hasher, files, i, extra);
}

/// A new text in a file that counts and is signed by its text is reported
/// as a change, unless the damped hashes of the old and the new text collide.
pub proof fn lemma_content_change_polls_changed(
    watcher: WatcherView,
    files: Seq<FileView>,
    i: int,
    size: Option<u64>,
    content: Option<Seq<char>>,
)
    requires
        watcher.hashed_files == fingerprint(watcher.hasher, files),
        0 <= i < files.len(),
        valid_name(files[i].path),
        !is_large(files[i].size),
        !is_large(size),
        text_signature(watcher.hasher, content) / DAMPING != text_signature(
            watcher.hasher,
            files[i].content,
        ) / DAMPING,
    ensures
        watcher.poll(Some(files.update(i, FileView { path: files[i].path, size, content }))).1,
{
    lemma_content_change_detected(watcher.hasher, files, i, size, content);
}

} // verus!
