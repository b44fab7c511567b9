//! The change detector: a lossy fingerprint of a directory tree, and a
//! watcher that compares successive fingerprints.

pub mod poll;
pub mod utils;
pub mod walk;

pub use self::poll::PollWatcher;
pub use self::utils::hash_dir;
pub use self::walk::DirIterator;

use std::hash::BuildHasher;
use std::hash::RandomState;
use vstd::prelude::*;

verus! {

/// What hashing `content` with the keys of `keys` yields. The value is fixed
/// by the keys and the text; nothing else is known of it.
pub uninterp spec fn keyed_hash(keys: RandomState, content: Seq<char>) -> u64;

/// `RandomState::new` draws fresh keys; nothing is promised of them.
pub assume_specification[ RandomState::new ]() -> (keys: RandomState);

/// `BuildHasher::hash_one` on a `RandomState`: hashers built from one
/// `RandomState` and fed the same text finish with the same value, so the
/// result is a function of the keys and the text.
#[verifier::external_body]
fn hash_one(keys: &RandomState, content: &str) -> (hash: u64)
    ensures
        hash == keyed_hash(*keys, content@),
{
    keys.hash_one(content)
}

/// The hash function used for file contents. It is keyed once, when it is
/// made, and gives the same answer for the same text from then on.
pub struct ContentHasher {
    keys: RandomState,
}

impl ContentHasher {
    /// A hasher with fresh keys.
    pub fn new() -> (hasher: Self) {
        ContentHasher { keys: RandomState::new() }
    }

    /// The hash of `content` under this hasher.
    pub closed spec fn digest(self, content: Seq<char>) -> u64 {
        keyed_hash(self.keys, content)
    }

    /// Hashes `content`.
    pub fn hash(&self, content: &str) -> (hash: u64)
        ensures
            hash == self.digest(content@),
    {
        hash_one(&self.keys, content)
    }
}

} // verus!
