//! Walking a directory tree without touching it.
//!
//! [`DirIterator`] decides in which order a tree is visited and when the
//! walk is over. It cannot list a directory itself: it asks for one with
//! [`Visit::Descend`], and the caller answers with [`DirIterator::enter`].

use super::utils::EntryPath;
use super::utils::PathView;
use vstd::prelude::*;

verus! {

/// What an entry of a directory turned out to be.
#[derive(Clone, Copy, Debug, PartialEq, Eq, Structural)]
pub enum EntryKind {
    /// Anything that is not a directory.
    File,
    Directory,
    /// The kind could not be determined.
    Unknown,
}

/// One entry of a directory listing.
pub struct TreeEntry {
    pub path: EntryPath,
    pub kind: EntryKind,
}

/// A [`TreeEntry`] as a mathematical value.
pub struct EntryView {
    pub path: PathView,
    pub kind: EntryKind,
}

impl View for TreeEntry {
    type V = EntryView;

    open spec fn view(&self) -> EntryView {
        EntryView { path: self.path@, kind: self.kind }
    }
}

/// The next stop of a walk.
pub enum Visit {
    /// A file of the tree.
    File(TreeEntry),
    /// The walk goes on inside this directory: its listing is wanted.
    Descend(TreeEntry),
    /// The walk is over.
    Done,
}

/// A [`Visit`] as a mathematical value.
pub enum VisitView {
    File(EntryView),
    Descend(EntryView),
    Done,
}

impl View for Visit {
    type V = VisitView;

    open spec fn view(&self) -> VisitView {
        match *self {
            Visit::File(entry) => VisitView::File(entry@),
            Visit::Descend(entry) => VisitView::Descend(entry@),
            Visit::Done => VisitView::Done,
        }
    }
}

/// The views of a list of entries.
pub open spec fn entry_views(entries: Seq<TreeEntry>) -> Seq<EntryView> {
    entries.map_values(|entry: TreeEntry| entry@)
}

/// The view of one item of a listing.
pub open spec fn item_view(item: Option<TreeEntry>) -> Option<EntryView> {
    match item {
        Some(entry) => Some(entry@),
        None => None,
    }
}

/// The views of a listing. An item is `None` where the entry could not be
/// read.
pub open spec fn listing_views(listing: Seq<Option<TreeEntry>>) -> Seq<Option<EntryView>> {
    listing.map_values(|item: Option<TreeEntry>| item_view(item))
}

/// A walk as a mathematical value.
pub struct WalkState {
    /// Directories seen and not yet entered; the last one is entered next.
    pub stack: Seq<EntryView>,
    /// What is left of the listing of the directory being visited.
    pub current: Seq<Option<EntryView>>,
    /// The walk is over.
    pub finished: bool,
}

impl WalkState {
    /// The walk that is over.
    pub open spec fn ended() -> WalkState {
        WalkState { stack: Seq::empty(), current: Seq::empty(), finished: true }
    }

    /// A walk that starts on the listing of the root.
    pub open spec fn start(listing: Seq<Option<EntryView>>) -> WalkState {
        WalkState { stack: Seq::empty(), current: listing, finished: false }
    }

    /// The walk after the listing asked for by a `Descend` has arrived, or
    /// could not be had (`None`), which ends the walk.
    pub open spec fn enter(self, listing: Option<Seq<Option<EntryView>>>) -> WalkState {
        if self.finished {
            self
        } else {
            match listing {
                Some(items) => WalkState { current: items, ..self },
                None => WalkState::ended(),
            }
        }
    }

    /// One step of the walk: the state afterwards and the stop reached.
    ///
    /// Directories met in the current listing are put aside and files are
    /// handed out. An entry of unknown kind ends the walk. An unreadable
    /// item ends the current listing, as its end does: the directory put
    /// aside last is entered next, and where none is left the walk is over.
    pub open spec fn advance(self) -> (WalkState, VisitView)
        decreases self.current.len(),
    {
        if self.finished {
            (self, VisitView::Done)
        } else if self.current.len() > 0 && self.current.first() is Some {
            let entry = self.current.first()->0;
            let rest = self.current.drop_first();
            match entry.kind {
                EntryKind::Unknown => (WalkState::ended(), VisitView::Done),
                EntryKind::Directory => WalkState {
                    stack: self.stack.push(entry),
                    current: rest,
                    ..self
                }.advance(),
                EntryKind::File => (WalkState { current: rest, ..self }, VisitView::File(entry)),
            }
        } else if self.stack.len() > 0 {
            (
                WalkState { stack: self.stack.drop_last(), current: Seq::empty(), ..self },
                VisitView::Descend(self.stack.last()),
            )
        } else {
            (WalkState::ended(), VisitView::Done)
        }
    }
}

/// A depth-first walk over a directory tree.
pub struct DirIterator {
    stack: Vec<TreeEntry>,
    /// The rest of the current listing, the next item last.
    current: Vec<Option<TreeEntry>>,
    finished: bool,
}

impl View for DirIterator {
    type V = WalkState;

    closed spec fn view(&self) -> WalkState {
        WalkState {
            stack: entry_views(self.stack@),
            current: listing_views(self.current@.reverse()),
            finished: self.finished,
        }
    }
}

fn reversed<T>(items: Vec<T>) -> (out: Vec<T>)
    ensures
        out@ == items@.reverse(),
{
    let mut items = items;
    let ghost all = items@;
    let mut out: Vec<T> = Vec::new();
    while items.len() > 0
        invariant
            out@ + items@.reverse() =~= all.reverse(),
        decreases items.len(),
    {
        let item = items.pop().unwrap();
        out.push(item);
    }
    out
}

impl DirIterator {
    /// Starts a walk on the listing of the root directory.
    pub fn new(dir: Vec<Option<TreeEntry>>) -> (walk: DirIterator)
        ensures
            walk@ == WalkState::start(listing_views(dir@)),
    {
        let current = reversed(dir);
        assert(current@.reverse() =~= dir@);
        let walk = DirIterator { stack: Vec::new(), current, finished: false };
        assert(walk@.stack =~= Seq::empty());
        walk
    }

    /// Whether the walk is over.
    pub fn finished(&self) -> (b: bool)
        ensures
            b == self@.finished,
    {
        self.finished
    }

    /// Supplies the listing of the directory that the last `Descend` named,
    /// or `None` where it could not be listed.
    pub fn enter(&mut self, listing: Option<Vec<Option<TreeEntry>>>)
        ensures
            final(self)@ == old(self)@.enter(
                match listing {
                    Some(items) => Some(listing_views(items@)),
                    None => None,
                },
            ),
    {
        if !self.finished {
            match listing {
                Some(items) => {
                    self.current = reversed(items);
                    assert(self.current@.reverse() =~= items@);
                },
                None => {
                    self.finish();
                },
            }
        }
    }

    fn finish(&mut self)
        ensures
            final(self)@ == WalkState::ended(),
    {
        self.stack = Vec::new();
        self.current = Vec::new();
        self.finished = true;
        assert(self@.stack =~= Seq::empty());
        assert(self@.current =~= Seq::empty());
    }

    /// Moves to the next stop of the walk.
    pub fn next(&mut self) -> (visit: Visit)
        ensures
            (final(self)@, visit@) == old(self)@.advance(),
    {
        loop
            invariant
                self@.advance() == old(self)@.advance(),
            decreases self.current.len(),
        {
            if self.finished {
                return Visit::Done;
            }
            let ghost before = self@;
            match self.current.pop() {
                Some(Some(entry)) => {
                    assert(self@.current =~= before.current.drop_first());
                    match entry.kind {
                        EntryKind::Unknown => {
                            self.finish();
                            return Visit::Done;
                        },
                        EntryKind::Directory => {
                            self.stack.push(entry);
                            assert(self@.stack =~= before.stack.push(entry@));
                        },
                        EntryKind::File => {
                            return Visit::File(entry);
                        },
                    }
                },
                _ => {
                    assert(!(before.current.len() > 0 && before.current.first() is Some));
                    match self.stack.pop() {
                        Some(dir) => {
                            self.current = Vec::new();
                            assert(self@.stack =~= before.stack.drop_last());
                            assert(self@.current =~= Seq::empty());
                            return Visit::Descend(dir);
                        },
                        None => {
                            self.finish();
                            return Visit::Done;
                        },
                    }
                },
            }
        }
    }
}

} // verus!
