//! How an index comes to disk: the steps of one request.

use crate::retrieve::fetch::{seal_of, seal_path, Action, ActionView, Event};
use vstd::prelude::*;

verus! {

/// How far the request for one index has come.
#[derive(Debug, PartialEq, Eq)]
pub enum IndexState {
    /// Nothing is known yet of the directory that the index belongs in.
    Unknown { path: String },
    /// The index is on disk; its directory is not locked yet.
    Cached { path: String },
    /// The index is not on disk; its directory is not locked yet.
    Absent { path: String },
    /// The directory is locked and waits for the index.
    Locked { path: String },
    /// The directory is locked and everything was brought; it is not
    /// sealed yet.
    Filled { path: String },
    /// The directory is locked and could not be filled; it is still there.
    Failing { path: String },
    /// The directory is locked and should hold the index.
    Present { path: String },
    /// The index was read.
    Kept { path: String },
    /// The index is left out.
    Skipped,
}

/// An `IndexState` as plain values.
pub enum IndexStateView {
    Unknown { path: Seq<char> },
    Cached { path: Seq<char> },
    Absent { path: Seq<char> },
    Locked { path: Seq<char> },
    Filled { path: Seq<char> },
    Failing { path: Seq<char> },
    Present { path: Seq<char> },
    Kept { path: Seq<char> },
    Skipped,
}

impl View for IndexState {
    type V = IndexStateView;

    open spec fn view(&self) -> IndexStateView {
        match self {
            IndexState::Unknown { path } => IndexStateView::Unknown { path: path@ },
            IndexState::Cached { path } => IndexStateView::Cached { path: path@ },
            IndexState::Absent { path } => IndexStateView::Absent { path: path@ },
            IndexState::Locked { path } => IndexStateView::Locked { path: path@ },
            IndexState::Filled { path } => IndexStateView::Filled { path: path@ },
            IndexState::Failing { path } => IndexStateView::Failing { path: path@ },
            IndexState::Present { path } => IndexStateView::Present { path: path@ },
            IndexState::Kept { path } => IndexStateView::Kept { path: path@ },
            IndexState::Skipped => IndexStateView::Skipped,
        }
    }
}

impl IndexStateView {
    /// What has to be done in this state.
    pub open spec fn action(self) -> ActionView {
        match self {
            IndexStateView::Unknown { path } => ActionView::Probe { path: seal_path(path) },
            IndexStateView::Cached { path } => ActionView::Lock { path },
            IndexStateView::Absent { path } => ActionView::Lock { path },
            IndexStateView::Locked { path } => ActionView::Retrieve { path },
            IndexStateView::Filled { path } => ActionView::Seal { path: seal_path(path) },
            IndexStateView::Failing { path } => ActionView::Remove { path },
            IndexStateView::Present { path } => ActionView::Load { path },
            IndexStateView::Kept { path } => ActionView::Done { path },
            IndexStateView::Skipped => ActionView::Skip,
        }
    }

    /// The state after the world has answered. An index is brought as a
    /// package source is: its seal is looked for, its directory is locked,
    /// and where the seal was absent the index is fetched and sealed, or
    /// its directory removed where that fails. Then it is read. Every
    /// failure ends in `Skipped`: an index that cannot be had is left out,
    /// and the others are not held up by it. An answer to something that
    /// was not asked changes nothing.
    pub open spec fn next(self, event: Event) -> IndexStateView {
        match (self, event) {
            (IndexStateView::Unknown { path }, Event::Found) => IndexStateView::Cached { path },
            (IndexStateView::Unknown { path }, Event::NotFound) => IndexStateView::Absent { path },
            (IndexStateView::Cached { path }, Event::LockAcquired) => IndexStateView::Present {
                path,
            },
            (IndexStateView::Cached { .. }, Event::LockFailed) => IndexStateView::Skipped,
            (IndexStateView::Absent { path }, Event::LockAcquired) => IndexStateView::Locked {
                path,
            },
            (IndexStateView::Absent { .. }, Event::LockFailed) => IndexStateView::Skipped,
            (IndexStateView::Locked { path }, Event::Retrieved) => IndexStateView::Filled { path },
            (IndexStateView::Locked { path }, Event::RetrieveFailed) => IndexStateView::Failing {
                path,
            },
            (IndexStateView::Filled { path }, Event::Sealed) => IndexStateView::Present { path },
            (IndexStateView::Filled { path }, Event::SealFailed) => IndexStateView::Failing {
                path,
            },
            (IndexStateView::Failing { .. }, Event::Removed) => IndexStateView::Skipped,
            (IndexStateView::Failing { .. }, Event::RemoveFailed) => IndexStateView::Skipped,
            (IndexStateView::Present { path }, Event::Loaded) => IndexStateView::Kept { path },
            (IndexStateView::Present { .. }, Event::LoadFailed) => IndexStateView::Skipped,
            _ => self,
        }
    }

    /// Whether nothing is left to do.
    pub open spec fn is_final(self) -> bool {
        self is Kept || self is Skipped
    }
}

impl IndexState {
    /// What has to be done in this state.
    pub fn action(&self) -> (r: Action)
        ensures
            r@ == self@.action(),
    {
        match self {
            IndexState::Unknown { path } => Action::Probe { path: seal_of(path.as_str()) },
            IndexState::Cached { path } => Action::Lock { path: path.clone() },
            IndexState::Absent { path } => Action::Lock { path: path.clone() },
            IndexState::Locked { path } => Action::Retrieve { path: path.clone() },
            IndexState::Filled { path } => Action::Seal { path: seal_of(path.as_str()) },
            IndexState::Failing { path } => Action::Remove { path: path.clone() },
            IndexState::Present { path } => Action::Load { path: path.clone() },
            IndexState::Kept { path } => Action::Done { path: path.clone() },
            IndexState::Skipped => Action::Skip,
        }
    }

    /// The state after the world has answered.
    pub fn next(self, event: Event) -> (r: IndexState)
        ensures
            r@ == self@.next(event),
    {
        match self {
            IndexState::Unknown { path } => match event {
                Event::Found => IndexState::Cached { path },
                Event::NotFound => IndexState::Absent { path },
                _ => IndexState::Unknown { path },
            },
            IndexState::Cached { path } => match event {
                Event::LockAcquired => IndexState::Present { path },
                Event::LockFailed => IndexState::Skipped,
                _ => IndexState::Cached { path },
            },
            IndexState::Absent { path } => match event {
                Event::LockAcquired => IndexState::Locked { path },
                Event::LockFailed => IndexState::Skipped,
                _ => IndexState::Absent { path },
            },
            IndexState::Locked { path } => match event {
                Event::Retrieved => IndexState::Filled { path },
                Event::RetrieveFailed => IndexState::Failing { path },
                _ => IndexState::Locked { path },
            },
            IndexState::Filled { path } => match event {
                Event::Sealed => IndexState::Present { path },
                Event::SealFailed => IndexState::Failing { path },
                _ => IndexState::Filled { path },
            },
            IndexState::Failing { path } => match event {
                Event::Removed => IndexState::Skipped,
                Event::RemoveFailed => IndexState::Skipped,
                _ => IndexState::Failing { path },
            },
            IndexState::Present { path } => match event {
                Event::Loaded => IndexState::Kept { path },
                Event::LoadFailed => IndexState::Skipped,
                _ => IndexState::Present { path },
            },
            IndexState::Kept { path } => IndexState::Kept { path },
            IndexState::Skipped => IndexState::Skipped,
        }
    }

    /// Whether nothing is left to do.
    pub fn is_final(&self) -> (r: bool)
        ensures
            r == self@.is_final(),
    {
        match self {
            IndexState::Kept { .. } => true,
            IndexState::Skipped => true,
            _ => false,
        }
    }
}

/// The request for an index never ends in an error: where the lock, the
/// transport, the sealing or the reading fails, the index is skipped, and
/// a directory that could not be filled is removed first. And it fetches,
/// as the request for a source does, only under a lock that it has just
/// acquired on a directory without a seal, and reads a fetched index only
/// once it is sealed.
pub proof fn lemma_index_failure_is_skipped(state: IndexStateView, event: Event)
    ensures
        !(state.next(event).action() is Fail),
        state.action() is Lock && event == Event::LockFailed ==> state.next(event) is Skipped,
        state.action() is Retrieve && event == Event::RetrieveFailed ==> state.next(event)
            is Failing,
        state.action() is Seal && event == Event::SealFailed ==> state.next(event) is Failing,
        state is Failing && (event == Event::Removed || event == Event::RemoveFailed)
            ==> state.next(event) is Skipped,
        state.action() is Load && event == Event::LoadFailed ==> state.next(event) is Skipped,
        state.next(event).action() is Retrieve ==> state is Locked || (state is Absent && event
            == Event::LockAcquired),
        state.next(event) is Present ==> state is Present || (state is Cached && event
            == Event::LockAcquired) || (state is Filled && event == Event::Sealed),
        state.is_final() ==> state.next(event) == state,
{
}

/// The indices that were read, in the order of their locators: each with
/// its place in that order and the directory it lies in.
pub open spec fn kept_indices(ends: Seq<IndexStateView>) -> Seq<(usize, Seq<char>)>
    decreases ends.len(),
{
    if ends.len() == 0 {
        seq![]
    } else {
        let before = kept_indices(ends.drop_last());
        match ends.last() {
            IndexStateView::Kept { path } => before.push(((ends.len() - 1) as usize, path)),
            _ => before,
        }
    }
}

} // verus!
