use cargo_hot::watcher::poll::{PollWatcher, WatchError};
use cargo_hot::watcher::utils::{
    get_hash, hash_dir, hash_file, is_valid_filename, needs_content, EntryPath, FileRecord,
    DAMPING, FILE_SIZE_THRESHOLD, MEGABYTE,
};
use cargo_hot::watcher::ContentHasher;

fn path(display: &str, components: &[&str]) -> EntryPath {
    EntryPath {
        display: String::from(display),
        components: components.iter().map(|c| String::from(*c)).collect(),
    }
}

fn unix_path(display: &str) -> EntryPath {
    let components: Vec<&str> = display.split('/').filter(|c| !c.is_empty()).collect();
    path(display, &components)
}

fn small(display: &str, text: &str) -> FileRecord {
    FileRecord {
        path: unix_path(display),
        size: Some(text.len() as u64),
        content: Some(String::from(text)),
    }
}

fn large(display: &str, size: u64) -> FileRecord {
    FileRecord { path: unix_path(display), size: Some(size), content: None }
}

#[test]
fn threshold_is_three_megabytes() {
    assert_eq!(MEGABYTE, 1_000_000);
    assert_eq!(FILE_SIZE_THRESHOLD, 3 * MEGABYTE);
    assert_eq!(DAMPING, 100);
}

#[test]
fn ordinary_source_files_are_valid() {
    assert!(is_valid_filename(&unix_path("src/main.rs")));
    assert!(is_valid_filename(&unix_path("Cargo.toml")));
    assert!(is_valid_filename(&path("/work/src/lib.rs", &["/", "work", "src", "lib.rs"])));
    assert!(is_valid_filename(&path("", &[])));
}

#[test]
fn editor_backups_are_excluded() {
    assert!(!is_valid_filename(&unix_path("src/main.rs~")));
    assert!(!is_valid_filename(&unix_path("~")));
    assert!(is_valid_filename(&unix_path("src/~main.rs")));
    assert!(is_valid_filename(&unix_path("~/src/main.rs")));
}

#[test]
fn editor_probe_file_is_excluded() {
    assert!(!is_valid_filename(&unix_path("src/4913")));
    assert!(!is_valid_filename(&unix_path("4913")));
    assert!(is_valid_filename(&unix_path("src/49130")));
    assert!(is_valid_filename(&unix_path("src/x4913")));
    assert!(is_valid_filename(&unix_path("4913/main.rs")));
}

#[test]
fn version_control_internals_are_excluded() {
    assert!(!is_valid_filename(&unix_path(".git/HEAD")));
    assert!(!is_valid_filename(&unix_path("project/.git/objects/ab/cdef")));
    assert!(!is_valid_filename(&unix_path("project/.git")));
    assert!(is_valid_filename(&unix_path("project/.gitignore")));
    assert!(is_valid_filename(&unix_path("project/x.git/config")));
    assert!(is_valid_filename(&unix_path("project/.github/workflows/ci.yml")));
}

#[test]
fn components_decide_not_the_printed_path() {
    assert!(is_valid_filename(&path(".git/HEAD", &["HEAD"])));
    assert!(!is_valid_filename(&path("HEAD", &[".git", "HEAD"])));
    assert!(!is_valid_filename(&path("probe", &["src", "4913"])));
    assert!(!is_valid_filename(&path("file~", &["src", "file"])));
}

#[test]
fn non_ascii_paths_are_read_by_character() {
    assert!(is_valid_filename(&unix_path("src/données.rs")));
    assert!(!is_valid_filename(&unix_path("src/données~")));
    assert!(is_valid_filename(&unix_path("src/~é")));
}

#[test]
fn unreadable_file_signs_as_zero() {
    let hasher = ContentHasher::new();
    assert_eq!(hash_file(&hasher, &None), 0);
    assert_eq!(get_hash(&hasher, None, &None), 0);
    assert_eq!(get_hash(&hasher, Some(10), &None), 0);
}

#[test]
fn large_file_signs_as_its_size() {
    let hasher = ContentHasher::new();
    assert_eq!(get_hash(&hasher, Some(3_000_000), &None), 3_000_000);
    assert_eq!(get_hash(&hasher, Some(3_000_000), &Some(String::from("text"))), 3_000_000);
    assert_eq!(get_hash(&hasher, Some(u64::MAX), &None), u64::MAX);
}

#[test]
fn small_file_signs_as_the_hash_of_its_text() {
    let hasher = ContentHasher::new();
    let text = Some(String::from("fn main() {}"));
    assert_eq!(get_hash(&hasher, Some(2_999_999), &text), hasher.hash("fn main() {}"));
    assert_eq!(get_hash(&hasher, Some(12), &text), hash_file(&hasher, &text));
    assert_eq!(get_hash(&hasher, None, &text), hasher.hash("fn main() {}"));
}

#[test]
fn text_is_needed_below_the_threshold_only() {
    assert!(needs_content(None));
    assert!(needs_content(Some(0)));
    assert!(needs_content(Some(2_999_999)));
    assert!(!needs_content(Some(3_000_000)));
    assert!(!needs_content(Some(u64::MAX)));
}

#[test]
fn one_hasher_gives_one_answer_per_text() {
    let hasher = ContentHasher::new();
    assert_eq!(hasher.hash("alpha"), hasher.hash("alpha"));
    assert_eq!(hasher.hash(""), hasher.hash(""));
    assert_ne!(hasher.hash("alpha"), hasher.hash("beta"));
    let texts = ["a", "b", "c", "d", "e", "f", "g", "h"];
    let hashes: Vec<u64> = texts.iter().map(|t| hasher.hash(t)).collect();
    for i in 0..texts.len() {
        for j in 0..i {
            assert_ne!(hashes[i], hashes[j]);
        }
    }
}

#[test]
fn empty_tree_has_fingerprint_zero() {
    let hasher = ContentHasher::new();
    assert_eq!(hash_dir(&hasher, &vec![]), 0);
}

#[test]
fn fingerprint_adds_damped_signatures() {
    let hasher = ContentHasher::new();
    let files = vec![large("a.bin", 3_000_000), large("b.bin", 5_000_050)];
    assert_eq!(hash_dir(&hasher, &files), 30_000 + 50_000);
    let files = vec![large("a.bin", 3_000_099)];
    assert_eq!(hash_dir(&hasher, &files), 30_000);
    let files = vec![small("src/lib.rs", "pub fn f() {}"), large("b.bin", 4_000_000)];
    assert_eq!(
        hash_dir(&hasher, &files),
        (hasher.hash("pub fn f() {}") / 100).wrapping_add(40_000)
    );
}

#[test]
fn fingerprint_wraps_around() {
    let hasher = ContentHasher::new();
    let mut files = Vec::new();
    for n in 0..101 {
        files.push(large(&format!("big{}.bin", n), u64::MAX));
    }
    let share = u64::MAX / 100;
    assert!(share.checked_mul(101).is_none());
    assert_eq!(hash_dir(&hasher, &files), share.wrapping_mul(101));
}

#[test]
fn fingerprint_ignores_excluded_files() {
    let hasher = ContentHasher::new();
    let counted = vec![small("src/lib.rs", "one"), large("data.bin", 7_000_000)];
    let base = hash_dir(&hasher, &counted);
    let extras = [
        small(".git/index", "anything"),
        small("src/lib.rs~", "backup"),
        small("src/4913", ""),
        large("project/.git/objects/pack/p.pack", 900_000_000),
    ];
    for (at, extra) in extras.into_iter().enumerate() {
        let mut files = vec![small("src/lib.rs", "one"), large("data.bin", 7_000_000)];
        files.insert(at % 3, extra);
        assert_eq!(hash_dir(&hasher, &files), base);
    }
}

#[test]
fn fingerprint_does_not_depend_on_the_order() {
    let hasher = ContentHasher::new();
    let forward = vec![small("a.rs", "a"), small("b.rs", "b"), large("c.bin", 3_500_000)];
    let backward = vec![large("c.bin", 3_500_000), small("b.rs", "b"), small("a.rs", "a")];
    assert_eq!(hash_dir(&hasher, &forward), hash_dir(&hasher, &backward));
}

#[test]
fn fingerprint_sees_a_change_of_text() {
    let hasher = ContentHasher::new();
    let before = vec![small("src/lib.rs", "fn a() {}"), small("src/b.rs", "fn b() {}")];
    let after = vec![small("src/lib.rs", "fn a() {}"), small("src/b.rs", "fn c() {}")];
    assert_ne!(hasher.hash("fn b() {}") / 100, hasher.hash("fn c() {}") / 100);
    assert_ne!(hash_dir(&hasher, &before), hash_dir(&hasher, &after));
}

#[test]
fn fingerprint_misses_a_change_inside_a_large_file_of_the_same_size() {
    let hasher = ContentHasher::new();
    let mut before = large("video.bin", 3_000_000);
    before.content = Some(String::from("old"));
    let mut after = large("video.bin", 3_000_000);
    after.content = Some(String::from("new"));
    assert_eq!(hash_dir(&hasher, &vec![before]), hash_dir(&hasher, &vec![after]));
}

#[test]
fn watcher_needs_a_readable_root() {
    let made = PollWatcher::new(String::from("src"), ContentHasher::new(), None);
    assert!(matches!(made, Err(WatchError::RootUnreadable)));
}

#[test]
fn watcher_remembers_the_first_scan() {
    let files = vec![large("a.bin", 3_000_000)];
    let watcher = PollWatcher::new(String::from("src"), ContentHasher::new(), Some(&files));
    let watcher = watcher.ok().unwrap();
    assert_eq!(watcher.folder(), "src");
    assert_eq!(watcher.hashed_files(), 30_000);
    assert_eq!(watcher.hasher().hash("x"), watcher.hasher().hash("x"));
}

#[test]
fn unchanged_tree_polls_unchanged_twice() {
    let files = vec![small("src/lib.rs", "fn a() {}"), large("b.bin", 4_000_000)];
    let made = PollWatcher::new(String::from("."), ContentHasher::new(), Some(&files));
    let mut watcher = made.ok().unwrap();
    assert!(!watcher.poll(Some(&files)));
    assert!(!watcher.poll(Some(&files)));
    let again = vec![small("src/lib.rs", "fn a() {}"), large("b.bin", 4_000_000)];
    assert!(!watcher.poll(Some(&again)));
}

#[test]
fn changed_text_polls_changed_once() {
    let files = vec![small("src/lib.rs", "fn a() {}")];
    let made = PollWatcher::new(String::from("."), ContentHasher::new(), Some(&files));
    let mut watcher = made.ok().unwrap();
    let edited = vec![small("src/lib.rs", "fn a() { 1; }")];
    assert!(watcher.poll(Some(&edited)));
    assert!(!watcher.poll(Some(&edited)));
    assert!(watcher.poll(Some(&files)));
}

#[test]
fn excluded_file_polls_unchanged() {
    let files = vec![small("src/lib.rs", "fn a() {}")];
    let made = PollWatcher::new(String::from("."), ContentHasher::new(), Some(&files));
    let mut watcher = made.ok().unwrap();
    let with_git = vec![small(".git/HEAD", "ref: refs/heads/main"), small("src/lib.rs", "fn a() {}")];
    assert!(!watcher.poll(Some(&with_git)));
    let with_backup = vec![small("src/lib.rs", "fn a() {}"), small("src/lib.rs~", "old")];
    assert!(!watcher.poll(Some(&with_backup)));
    let with_probe = vec![small("src/lib.rs", "fn a() {}"), small("src/4913", "")];
    assert!(!watcher.poll(Some(&with_probe)));
}

#[test]
fn failed_scan_polls_unchanged_and_is_forgotten() {
    let files = vec![large("a.bin", 3_000_000)];
    let made = PollWatcher::new(String::from("."), ContentHasher::new(), Some(&files));
    let mut watcher = made.ok().unwrap();
    assert!(!watcher.poll(None));
    assert_eq!(watcher.hashed_files(), 30_000);
    assert!(!watcher.poll(Some(&files)));
    let grown = vec![large("a.bin", 3_000_100)];
    assert!(watcher.poll(Some(&grown)));
    assert_eq!(watcher.hashed_files(), 30_001);
}

#[test]
fn removed_file_polls_changed() {
    let files = vec![large("a.bin", 3_000_000), large("b.bin", 3_000_000)];
    let made = PollWatcher::new(String::from("."), ContentHasher::new(), Some(&files));
    let mut watcher = made.ok().unwrap();
    assert!(watcher.poll(Some(&vec![large("a.bin", 3_000_000)])));
    assert!(watcher.poll(Some(&vec![])));
    assert_eq!(watcher.hashed_files(), 0);
}
