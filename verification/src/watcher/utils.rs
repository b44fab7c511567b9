//! Fingerprinting: which files count, what each contributes, and how the
//! contributions add up.
//!
//! The functions here work on what a scan of the tree has observed: the
//! path of each file, its size where the metadata could be read, and its
//! text where the file could be read.

use super::ContentHasher;
use vstd::prelude::*;
use vstd::string::*;

verus! {

pub const MEGABYTE: u64 = 1000000;

/// Files of this size or more are fingerprinted by their size alone.
pub const FILE_SIZE_THRESHOLD: u64 = MEGABYTE * 3;

/// Each file's signature is divided by this before it is added up.
pub const DAMPING: u64 = 100;

/// A path as the scan saw it: its printed form, and its components from the
/// root down.
pub struct EntryPath {
    pub display: String,
    pub components: Vec<String>,
}

/// An [`EntryPath`] as a mathematical value.
pub struct PathView {
    pub display: Seq<char>,
    pub components: Seq<Seq<char>>,
}

impl View for EntryPath {
    type V = PathView;

    open spec fn view(&self) -> PathView {
        PathView { display: self.display@, components: texts(self.components@) }
    }
}

/// The texts of a list of strings.
pub open spec fn texts(strings: Seq<String>) -> Seq<Seq<char>> {
    strings.map_values(|s: String| s@)
}

/// The name of the scratch file that an editor creates to probe a directory.
pub open spec fn probe_name() -> Seq<char> {
    seq!['4', '9', '1', '3']
}

/// The name of the directory that holds version-control internals.
pub open spec fn vcs_name() -> Seq<char> {
    seq!['.', 'g', 'i', 't']
}

/// Whether a file at `path` takes part in the fingerprint: its printed path
/// does not end in a tilde, its last component is not the probe name, and no
/// component is the version-control directory.
pub open spec fn valid_name(path: PathView) -> bool {
    &&& !(path.display.len() > 0 && path.display.last() == '~')
    &&& !(path.components.len() > 0 && path.components.last() == probe_name())
    &&& !path.components.contains(vcs_name())
}

/// Decides whether a file at `path` takes part in the fingerprint.
pub fn is_valid_filename(path: &EntryPath) -> (valid: bool)
    ensures
        valid == valid_name(path@),
{
    let shown = path.display.as_str();
    let length = shown.unicode_len();
    let is_backup = length > 0 && shown.get_char(length - 1) == '~';
    let count = path.components.len();
    proof {
        reveal_strlit("4913");
        reveal_strlit(".git");
    }
    let probe = String::from_str("4913");
    let vcs = String::from_str(".git");
    assert(probe@ =~= probe_name());
    let is_probe = count > 0 && path.components[count - 1] == probe;
    let mut is_vcs = false;
    let mut i: usize = 0;
    while i < count
        invariant
            i <= count,
            count == path.components.len(),
            vcs@ == vcs_name(),
            is_vcs == exists|j: int| 0 <= j < i && path@.components[j] == vcs_name(),
        decreases count - i,
    {
        assert(path@.components[i as int] == path.components[i as int]@);
        if path.components[i] == vcs {
            is_vcs = true;
        }
        i += 1;
    }
    !is_backup && !is_probe && !is_vcs
}

/// What a scan observed of one file.
pub struct FileRecord {
    pub path: EntryPath,
    /// The size in bytes, where the metadata could be read.
    pub size: Option<u64>,
    /// The text, where the file was read and could be read.
    pub content: Option<String>,
}

/// A [`FileRecord`] as a mathematical value.
pub struct FileView {
    pub path: PathView,
    pub size: Option<u64>,
    pub content: Option<Seq<char>>,
}

/// The text of a file as a mathematical value.
pub open spec fn text_of(content: Option<String>) -> Option<Seq<char>> {
    match content {
        Some(text) => Some(text@),
        None => None,
    }
}

impl View for FileRecord {
    type V = FileView;

    open spec fn view(&self) -> FileView {
        FileView { path: self.path@, size: self.size, content: text_of(self.content) }
    }
}

/// The views of a list of records.
pub open spec fn views(files: Seq<FileRecord>) -> Seq<FileView> {
    files.map_values(|file: FileRecord| file@)
}

/// The signature of a file by its text: the hash of the text, or zero where
/// there is none.
pub open spec fn text_signature(hasher: ContentHasher, content: Option<Seq<char>>) -> u64 {
    match content {
        Some(text) => hasher.digest(text),
        None => 0,
    }
}

/// Whether a file of this size is fingerprinted by its size alone.
pub open spec fn is_large(size: Option<u64>) -> bool {
    size matches Some(bytes) && bytes >= FILE_SIZE_THRESHOLD
}

/// The signature of a file: its size where that is known and large, else the
/// signature of its text.
pub open spec fn signature(hasher: ContentHasher, size: Option<u64>, content: Option<Seq<char>>)
    -> u64 {
    if is_large(size) {
        size->0
    } else {
        text_signature(hasher, content)
    }
}

/// What one file adds to the fingerprint: nothing where its name is
/// excluded, else its damped signature.
pub open spec fn share(hasher: ContentHasher, file: FileView) -> u64 {
    if valid_name(file.path) {
        signature(hasher, file.size, file.content) / DAMPING
    } else {
        0
    }
}

/// Addition that wraps around at the width of a fingerprint.
pub open spec fn wrap_sum(a: u64, b: u64) -> u64 {
    ((a + b) % 0x1_0000_0000_0000_0000) as u64
}

/// The fingerprint of a tree: the wrapped sum of the shares of its files.
pub open spec fn fingerprint(hasher: ContentHasher, files: Seq<FileView>) -> u64
    decreases files.len(),
{
    if files.len() == 0 {
        0
    } else {
        wrap_sum(fingerprint(hasher, files.drop_last()), share(hasher, files.last()))
    }
}

/// A wrapped sum is the sum, less one turn of the wheel where it overshoots.
pub proof fn lemma_wrap_sum_value(a: u64, b: u64)
    ensures
        wrap_sum(a, b) == if a + b < 0x1_0000_0000_0000_0000 {
            a + b
        } else {
            a + b - 0x1_0000_0000_0000_0000
        },
{
}

/// Wrapped addition can be regrouped, has zero as its unit, and can be
/// undone: equal sums with one equal term have the other term equal.
pub proof fn lemma_wrap_sum_laws(a: u64, b: u64, c: u64)
    ensures
        wrap_sum(a, 0) == a,
        wrap_sum(a, b) == wrap_sum(b, a),
        wrap_sum(wrap_sum(a, b), c) == wrap_sum(a, wrap_sum(b, c)),
        wrap_sum(a, b) == wrap_sum(a, c) <==> b == c,
        wrap_sum(b, a) == wrap_sum(c, a) <==> b == c,
{
    lemma_wrap_sum_value(a, 0);
    lemma_wrap_sum_value(a, b);
    lemma_wrap_sum_value(b, a);
    lemma_wrap_sum_value(a, c);
    lemma_wrap_sum_value(c, a);
    lemma_wrap_sum_value(b, c);
    lemma_wrap_sum_value(wrap_sum(a, b), c);
    lemma_wrap_sum_value(a, wrap_sum(b, c));
}

/// Appending one file adds its share.
pub proof fn lemma_fingerprint_push(hasher: ContentHasher, files: Seq<FileView>, file: FileView)
    ensures
        fingerprint(hasher, files.push(file)) == wrap_sum(
            fingerprint(hasher, files),
            share(hasher, file),
        ),
{
    assert(files.push(file).drop_last() =~= files);
}

/// The fingerprint of two lists put together is the wrapped sum of their
/// fingerprints.
pub proof fn lemma_fingerprint_concat(hasher: ContentHasher, a: Seq<FileView>, b: Seq<FileView>)
    ensures
        fingerprint(hasher, a + b) == wrap_sum(fingerprint(hasher, a), fingerprint(hasher, b)),
    decreases b.len(),
{
    if b.len() == 0 {
        lemma_wrap_sum_laws(fingerprint(hasher, a), 0, 0);
    } else {
        lemma_fingerprint_concat(hasher, a, b.drop_last());
        assert((a + b).drop_last() =~= a + b.drop_last());
        lemma_wrap_sum_laws(
            fingerprint(hasher, a),
            fingerprint(hasher, b.drop_last()),
            share(hasher, b.last()),
        );
    }
}

/// The order in which the files are listed does not matter: swapping two
/// parts of the list keeps the fingerprint.
pub proof fn lemma_fingerprint_order(hasher: ContentHasher, a: Seq<FileView>, b: Seq<FileView>)
    ensures
        fingerprint(hasher, a + b) == fingerprint(hasher, b + a),
{
    lemma_fingerprint_concat(hasher, a, b);
    lemma_fingerprint_concat(hasher, b, a);
    lemma_wrap_sum_laws(fingerprint(hasher, a), fingerprint(hasher, b), 0);
}

/// Replacing one file changes the fingerprint exactly when it changes that
/// file's share.
pub proof fn lemma_fingerprint_update(
    hasher: ContentHasher,
    files: Seq<FileView>,
    i: int,
    file: FileView,
)
    requires
        0 <= i < files.len(),
    ensures
        fingerprint(hasher, files.update(i, file)) == fingerprint(hasher, files) <==> share(
            hasher,
            file,
        ) == share(hasher, files[i]),
{
    let head = files.take(i);
    let tail = files.skip(i + 1);
    assert(files =~= head.push(files[i]) + tail);
    assert(files.update(i, file) =~= head.push(file) + tail);
    lemma_fingerprint_push(hasher, head, files[i]);
    lemma_fingerprint_push(hasher, head, file);
    lemma_fingerprint_concat(hasher, head.push(files[i]), tail);
    lemma_fingerprint_concat(hasher, head.push(file), tail);
    let before = fingerprint(hasher, head);
    let after = fingerprint(hasher, tail);
    lemma_wrap_sum_laws(before, share(hasher, file), share(hasher, files[i]));
    lemma_wrap_sum_laws(
        after,
        wrap_sum(before, share(hasher, file)),
        wrap_sum(before, share(hasher, files[i])),
    );
}

/// A file with an excluded name, wherever it appears in the tree, leaves the
/// fingerprint as it was.
pub proof fn lemma_excluded_file_ignored(
    hasher: ContentHasher,
    files: Seq<FileView>,
    i: int,
    extra: FileView,
)
    requires
        0 <= i <= files.len(),
        !valid_name(extra.path),
    ensures
        fingerprint(hasher, files.insert(i, extra)) == fingerprint(hasher, files),
{
    let head = files.take(i);
    let tail = files.skip(i);
    assert(files =~= head + tail);
    lemma_fingerprint_push(hasher, head, extra);
    lemma_fingerprint_concat(hasher, head.push(extra), tail);
    lemma_fingerprint_concat(hasher, head, tail);
    lemma_wrap_sum_laws(fingerprint(hasher, head), 0, 0);
}

/// Changing the text of a file that counts and is signed by its text, before
/// and after, changes the fingerprint, unless the damped hashes of the old
/// and the new text collide.
pub proof fn lemma_content_change_detected(
    hasher: ContentHasher,
    files: Seq<FileView>,
    i: int,
    size: Option<u64>,
    content: Option<Seq<char>>,
)
    requires
        0 <= i < files.len(),
        valid_name(files[i].path),
        !is_large(files[i].size),
        !is_large(size),
        text_signature(hasher, content) / DAMPING != text_signature(hasher, files[i].content)
            / DAMPING,
    ensures
        fingerprint(hasher, files.update(i, FileView { path: files[i].path, size, content }))
            != fingerprint(hasher, files),
{
    lemma_fingerprint_update(hasher, files, i, FileView { path: files[i].path, size, content });
}

/// Signs a file by its text. A file that could not be read signs as zero.
pub fn hash_file(hasher: &ContentHasher, content: &Option<String>) -> (hash: u64)
    ensures
        hash == text_signature(*hasher, text_of(*content)),
{
    match content {
        Some(text) => hasher.hash(text.as_str()),
        None => 0,
    }
}

/// Whether the text of a file of this size is needed to sign it. A scan may
/// leave large files unread.
pub fn needs_content(size: Option<u64>) -> (needed: bool)
    ensures
        needed == !is_large(size),
{
    match size {
        Some(bytes) => bytes < FILE_SIZE_THRESHOLD,
        None => true,
    }
}

/// Signs a file from what was observed of it.
pub fn get_hash(hasher: &ContentHasher, size: Option<u64>, content: &Option<String>) -> (hash: u64)
    ensures
        hash == signature(*hasher, size, text_of(*content)),
{
    match size {
        Some(bytes) => {
            if bytes >= FILE_SIZE_THRESHOLD {
                bytes
            } else {
                hash_file(hasher, content)
            }
        },
        None => hash_file(hasher, content),
    }
}

/// Computes the fingerprint of a scanned tree.
pub fn hash_dir(hasher: &ContentHasher, files: &Vec<FileRecord>) -> (total: u64)
    ensures
        total == fingerprint(*hasher, views(files@)),
{
    let mut total_hash: u64 = 0;
    let mut i: usize = 0;
    while i < files.len()
        invariant
            i <= files.len(),
            total_hash == fingerprint(*hasher, views(files@).take(i as int)),
        decreases files.len() - i,
    {
        let file = &files[i];
        let ghost seen = views(files@).take(i + 1);
        assert(seen.drop_last() =~= views(files@).take(i as int));
        if is_valid_filename(&file.path) {
            let hash = get_hash(hasher, file.size, &file.content) / DAMPING;
            total_hash = total_hash.wrapping_add(hash);
        }
        i += 1;
    }
    assert(views(files@).take(files.len() as int) =~= views(files@));
    total_hash
}

} // verus!
