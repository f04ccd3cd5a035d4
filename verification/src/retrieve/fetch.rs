//! How a package source comes to disk: the steps of one request.
//!
//! A request asks one thing of the world at a time. Whoever runs it does
//! what the `action` of its state says and hands the answer to `next`.
//!
//! A directory in the cache counts as holding its source only once it is
//! sealed: a file of its own says that everything was brought. The seal is
//! written last, under the lock, and a directory whose filling has failed
//! is removed again. So a directory that is still being filled, or that was
//! left half filled, is never taken for a source.

use crate::util::errors::ErrorKind;
use crate::util::text::{join, join_path};
use vstd::prelude::*;

verus! {

/// What the world outside answers to the action that was asked of it.
#[derive(Clone, Copy, Debug, PartialEq, Eq, Structural)]
pub enum Event {
    /// The path that was probed exists.
    Found,
    /// The path that was probed does not exist.
    NotFound,
    /// The lock is held now; its directory exists from here on.
    LockAcquired,
    /// Someone else holds the lock, or its directory could not be made.
    LockFailed,
    /// The transport has brought everything into the directory.
    Retrieved,
    /// The transport has given up.
    RetrieveFailed,
    /// The seal was written.
    Sealed,
    /// The seal could not be written.
    SealFailed,
    /// The directory is gone, with everything in it.
    Removed,
    /// The directory could not be removed.
    RemoveFailed,
    /// The index in the directory was read.
    Loaded,
    /// What lies in the directory could not be read as an index.
    LoadFailed,
}

/// What a request asks of the world outside.
#[derive(Debug, PartialEq, Eq)]
pub enum Action {
    /// Say whether this path exists.
    Probe { path: String },
    /// Acquire the lock on this directory, making the directory if need be.
    Lock { path: String },
    /// Bring what the locator names into this directory, which is locked,
    /// in place of whatever lies there.
    Retrieve { path: String },
    /// Write this file, the seal of the locked directory it lies in.
    Seal { path: String },
    /// Remove this directory, which is locked, with everything in it.
    Remove { path: String },
    /// Read the index in this directory, which is locked.
    Load { path: String },
    /// Nothing is left to do: the directory is locked and holds what was
    /// asked for.
    Done { path: String },
    /// Nothing is left to do: the request has failed.
    Fail { error: ErrorKind },
    /// Nothing is left to do: this index is left out.
    Skip,
}

/// An `Action` as plain values.
pub enum ActionView {
    Probe { path: Seq<char> },
    Lock { path: Seq<char> },
    Retrieve { path: Seq<char> },
    Seal { path: Seq<char> },
    Remove { path: Seq<char> },
    Load { path: Seq<char> },
    Done { path: Seq<char> },
    Fail { error: ErrorKind },
    Skip,
}

impl View for Action {
    type V = ActionView;

    open spec fn view(&self) -> ActionView {
        match self {
            Action::Probe { path } => ActionView::Probe { path: path@ },
            Action::Lock { path } => ActionView::Lock { path: path@ },
            Action::Retrieve { path } => ActionView::Retrieve { path: path@ },
            Action::Seal { path } => ActionView::Seal { path: path@ },
            Action::Remove { path } => ActionView::Remove { path: path@ },
            Action::Load { path } => ActionView::Load { path: path@ },
            Action::Done { path } => ActionView::Done { path: path@ },
            Action::Fail { error } => ActionView::Fail { error: *error },
            Action::Skip => ActionView::Skip,
        }
    }
}

/// The file in the directory `dir` of the cache that says that the
/// directory holds everything it was made for.
pub open spec fn seal_path(dir: Seq<char>) -> Seq<char> {
    join(dir, ".sealed"@)
}

/// Names the seal of a directory of the cache.
pub fn seal_of(dir: &str) -> (r: String)
    ensures
        r@ == seal_path(dir@),
{
    join_path(dir, ".sealed")
}

/// How far the request for one package source has come.
#[derive(Debug, PartialEq, Eq)]
pub enum FetchState {
    /// Nothing is known yet of the directory that the source belongs in.
    Unknown { path: String },
    /// The source is on disk; its directory is not locked yet.
    Cached { path: String },
    /// The source is not on disk; its directory is not locked yet.
    Absent { path: String },
    /// The directory is locked and waits for the source.
    Locked { path: String },
    /// The directory is locked and everything was brought; it is not
    /// sealed yet.
    Filled { path: String },
    /// The directory is locked and could not be filled; it is still there.
    Failing { path: String },
    /// The directory is locked and holds the source.
    Populated { path: String },
    /// The request has failed.
    Failed { error: ErrorKind },
}

/// A `FetchState` as plain values.
pub enum FetchStateView {
    Unknown { path: Seq<char> },
    Cached { path: Seq<char> },
    Absent { path: Seq<char> },
    Locked { path: Seq<char> },
    Filled { path: Seq<char> },
    Failing { path: Seq<char> },
    Populated { path: Seq<char> },
    Failed { error: ErrorKind },
}

impl View for FetchState {
    type V = FetchStateView;

    open spec fn view(&self) -> FetchStateView {
        match self {
            FetchState::Unknown { path } => FetchStateView::Unknown { path: path@ },
            FetchState::Cached { path } => FetchStateView::Cached { path: path@ },
            FetchState::Absent { path } => FetchStateView::Absent { path: path@ },
            FetchState::Locked { path } => FetchStateView::Locked { path: path@ },
            FetchState::Filled { path } => FetchStateView::Filled { path: path@ },
            FetchState::Failing { path } => FetchStateView::Failing { path: path@ },
            FetchState::Populated { path } => FetchStateView::Populated { path: path@ },
            FetchState::Failed { error } => FetchStateView::Failed { error: *error },
        }
    }
}

impl FetchStateView {
    /// What has to be done in this state. Whether a source is on disk is
    /// asked of the seal of its directory, not of the directory.
    pub open spec fn action(self) -> ActionView {
        match self {
            FetchStateView::Unknown { path } => ActionView::Probe { path: seal_path(path) },
            FetchStateView::Cached { path } => ActionView::Lock { path },
            FetchStateView::Absent { path } => ActionView::Lock { path },
            FetchStateView::Locked { path } => ActionView::Retrieve { path },
            FetchStateView::Filled { path } => ActionView::Seal { path: seal_path(path) },
            FetchStateView::Failing { path } => ActionView::Remove { path },
            FetchStateView::Populated { path } => ActionView::Done { path },
            FetchStateView::Failed { error } => ActionView::Fail { error },
        }
    }

    /// The state after the world has answered. A directory that was filled
    /// is sealed before the request ends; one that could not be filled or
    /// sealed is removed before the request fails, whether or not the
    /// removal succeeds. An answer to something that was not asked changes
    /// nothing.
    pub open spec fn next(self, event: Event) -> FetchStateView {
        match (self, event) {
            (FetchStateView::Unknown { path }, Event::Found) => FetchStateView::Cached { path },
            (FetchStateView::Unknown { path }, Event::NotFound) => FetchStateView::Absent { path },
            (FetchStateView::Cached { path }, Event::LockAcquired) => FetchStateView::Populated {
                path,
            },
            (FetchStateView::Cached { .. }, Event::LockFailed) => FetchStateView::Failed {
                error: ErrorKind::LockAcquisitionFailure,
            },
            (FetchStateView::Absent { path }, Event::LockAcquired) => FetchStateView::Locked {
                path,
            },
            (FetchStateView::Absent { .. }, Event::LockFailed) => FetchStateView::Failed {
                error: ErrorKind::LockAcquisitionFailure,
            },
            (FetchStateView::Locked { path }, Event::Retrieved) => FetchStateView::Filled { path },
            (FetchStateView::Locked { path }, Event::RetrieveFailed) => FetchStateView::Failing {
                path,
            },
            (FetchStateView::Filled { path }, Event::Sealed) => FetchStateView::Populated {
                path,
            },
            (FetchStateView::Filled { path }, Event::SealFailed) => FetchStateView::Failing {
                path,
            },
            (FetchStateView::Failing { .. }, Event::Removed) => FetchStateView::Failed {
                error: ErrorKind::FetchFailure,
            },
            (FetchStateView::Failing { .. }, Event::RemoveFailed) => FetchStateView::Failed {
                error: ErrorKind::FetchFailure,
            },
            _ => self,
        }
    }

    /// Whether nothing is left to do.
    pub open spec fn is_final(self) -> bool {
        self is Populated || self is Failed
    }

    /// The directory that the request is about, unless it has failed.
    pub open spec fn path(self) -> Option<Seq<char>> {
        match self {
            FetchStateView::Unknown { path } => Some(path),
            FetchStateView::Cached { path } => Some(path),
            FetchStateView::Absent { path } => Some(path),
            FetchStateView::Locked { path } => Some(path),
            FetchStateView::Filled { path } => Some(path),
            FetchStateView::Failing { path } => Some(path),
            FetchStateView::Populated { path } => Some(path),
            FetchStateView::Failed { .. } => None,
        }
    }
}

impl FetchState {
    /// What has to be done in this state.
    pub fn action(&self) -> (r: Action)
        ensures
            r@ == self@.action(),
    {
        match self {
            FetchState::Unknown { path } => Action::Probe { path: seal_of(path.as_str()) },
            FetchState::Cached { path } => Action::Lock { path: path.clone() },
            FetchState::Absent { path } => Action::Lock { path: path.clone() },
            FetchState::Locked { path } => Action::Retrieve { path: path.clone() },
            FetchState::Filled { path } => Action::Seal { path: seal_of(path.as_str()) },
            FetchState::Failing { path } => Action::Remove { path: path.clone() },
            FetchState::Populated { path } => Action::Done { path: path.clone() },
            FetchState::Failed { error } => Action::Fail { error: *error },
        }
    }

    /// The state after the world has answered.
    pub fn next(self, event: Event) -> (r: FetchState)
        ensures
            r@ == self@.next(event),
    {
        match self {
            FetchState::Unknown { path } => match event {
                Event::Found => FetchState::Cached { path },
                Event::NotFound => FetchState::Absent { path },
                _ => FetchState::Unknown { path },
            },
            FetchState::Cached { path } => match event {
                Event::LockAcquired => FetchState::Populated { path },
                Event::LockFailed => FetchState::Failed {
                    error: ErrorKind::LockAcquisitionFailure,
                },
                _ => FetchState::Cached { path },
            },
            FetchState::Absent { path } => match event {
                Event::LockAcquired => FetchState::Locked { path },
                Event::LockFailed => FetchState::Failed {
                    error: ErrorKind::LockAcquisitionFailure,
                },
                _ => FetchState::Absent { path },
            },
            FetchState::Locked { path } => match event {
                Event::Retrieved => FetchState::Filled { path },
                Event::RetrieveFailed => FetchState::Failing { path },
                _ => FetchState::Locked { path },
            },
            FetchState::Filled { path } => match event {
                Event::Sealed => FetchState::Populated { path },
                Event::SealFailed => FetchState::Failing { path },
                _ => FetchState::Filled { path },
            },
            FetchState::Failing { path } => match event {
                Event::Removed => FetchState::Failed { error: ErrorKind::FetchFailure },
                Event::RemoveFailed => FetchState::Failed { error: ErrorKind::FetchFailure },
                _ => FetchState::Failing { path },
            },
            FetchState::Populated { path } => FetchState::Populated { path },
            FetchState::Failed { error } => FetchState::Failed { error },
        }
    }

    /// Whether nothing is left to do.
    pub fn is_final(&self) -> (r: bool)
        ensures
            r == self@.is_final(),
    {
        match self {
            FetchState::Populated { .. } => true,
            FetchState::Failed { .. } => true,
            _ => false,
        }
    }
}

/// The seal of a directory is not the directory.
pub proof fn lemma_seal_is_apart(dir: Seq<char>)
    ensures
        seal_path(dir) != dir,
{
    assert(seal_path(dir).len() > dir.len());
}

/// A request stays with its directory: whatever it asks for, it asks of
/// the directory it began with or of that directory's seal, and that is
/// the directory it ends in. A source that is a directory on disk is
/// therefore used where it lies.
pub proof fn lemma_path_stays(state: FetchStateView, event: Event)
    ensures
        state.next(event).path() is Some ==> state.next(event).path() == state.path(),
        match state.action() {
            ActionView::Probe { path } => state.path() is Some && path == seal_path(
                state.path()->0,
            ),
            ActionView::Seal { path } => state.path() is Some && path == seal_path(
                state.path()->0,
            ),
            ActionView::Lock { path } => state.path() == Some(path),
            ActionView::Retrieve { path } => state.path() == Some(path),
            ActionView::Remove { path } => state.path() == Some(path),
            ActionView::Done { path } => state.path() == Some(path),
            _ => state.path() is None,
        },
{
}

/// A request goes on to fetch only from a lock that it has just acquired
/// on a directory that was absent: the lock comes before the fetch, and a
/// request that is refused the lock never fetches. It seals only what it
/// has just retrieved, and it ends with the source only from a seal: one
/// that it found before it took the lock, or one that it has just written.
pub proof fn lemma_lock_before_fetch(state: FetchStateView, event: Event)
    ensures
        state.next(event).action() is Retrieve <==> state.next(event) is Locked,
        state.next(event) is Locked ==> state is Locked || (state is Absent && event
            == Event::LockAcquired),
        state.next(event) is Filled ==> state is Filled || (state is Locked && event
            == Event::Retrieved),
        state.next(event) is Populated ==> state is Populated || (state is Cached && event
            == Event::LockAcquired) || (state is Filled && event == Event::Sealed),
        state is Failed ==> state.next(event) == state,
        state is Populated ==> state.next(event) == state,
{
}

/// How the world of a model treats a request: whether the lock can be had,
/// whether the transport works, and whether the disk takes what is written
/// and removed.
pub struct Luck {
    pub lock_free: bool,
    pub transport_up: bool,
    pub disk_up: bool,
}

/// A request that is run against a model of the world: the state it has
/// come to, the paths that exist, and the retrievals it has asked for so
/// far.
pub struct Run {
    pub state: FetchStateView,
    pub disk: Set<Seq<char>>,
    pub retrievals: nat,
}

/// What a modelled world answers to an action. A probe is answered by the
/// disk, everything else by luck.
pub open spec fn answer(action: ActionView, disk: Set<Seq<char>>, luck: Luck) -> Event {
    match action {
        ActionView::Probe { path } => if disk.contains(path) {
            Event::Found
        } else {
            Event::NotFound
        },
        ActionView::Lock { .. } => if luck.lock_free {
            Event::LockAcquired
        } else {
            Event::LockFailed
        },
        ActionView::Retrieve { .. } => if luck.transport_up {
            Event::Retrieved
        } else {
            Event::RetrieveFailed
        },
        ActionView::Seal { .. } => if luck.disk_up {
            Event::Sealed
        } else {
            Event::SealFailed
        },
        ActionView::Remove { .. } => if luck.disk_up {
            Event::Removed
        } else {
            Event::RemoveFailed
        },
        _ => Event::Found,
    }
}

/// The disk of a modelled world after an action was answered. To acquire a
/// lock makes its directory, a seal that was written exists, and a
/// directory that was removed is gone with its seal.
pub open spec fn disk_after(action: ActionView, event: Event, disk: Set<Seq<char>>) -> Set<
    Seq<char>,
> {
    match (action, event) {
        (ActionView::Lock { path }, Event::LockAcquired) => disk.insert(path),
        (ActionView::Seal { path }, Event::Sealed) => disk.insert(path),
        (ActionView::Remove { path }, Event::Removed) => disk.remove(path).remove(
            seal_path(path),
        ),
        _ => disk,
    }
}

impl Run {
    /// One step of the request. A retrieval is counted when it is asked
    /// for, whether it succeeds or not.
    pub open spec fn step(self, luck: Luck) -> Run {
        let action = self.state.action();
        let event = answer(action, self.disk, luck);
        Run {
            state: self.state.next(event),
            disk: disk_after(action, event, self.disk),
            retrievals: if action is Retrieve {
                self.retrievals + 1
            } else {
                self.retrievals
            },
        }
    }
}

/// A request run to its end on a disk: a probe, a lock, a retrieval, a
/// seal and a removal are all that a request can ask for, in that order.
pub open spec fn run_load(start: FetchStateView, disk: Set<Seq<char>>, luck: Luck) -> Run {
    Run { state: start, disk, retrievals: 0 }.step(luck).step(luck).step(luck).step(luck).step(
        luck,
    )
}

/// What one request leaves behind, whatever the disk holds at first and
/// however the world treats it. A request starts as the cache gives it:
/// with nothing known, or as cached where the source is a directory on
/// disk, which is never retrieved. The request ends. It asks for at most
/// one retrieval. The seal of its directory is on disk afterwards only
/// where it was there before or the request has ended with the source; so
/// a request that fails leaves an unsealed directory unsealed, and whoever
/// probes afterwards finds the source absent.
pub proof fn lemma_load_seals_last(start: FetchStateView, disk: Set<Seq<char>>, luck: Luck)
    requires
        start is Unknown || start is Cached,
    ensures
        ({
            let end = run_load(start, disk, luck);
            let seal = seal_path(start.path()->0);
            &&& end.state.is_final()
            &&& end.retrievals <= 1
            &&& start is Cached ==> end.retrievals == 0
            &&& end.state is Populated ==> end.state.path() == start.path()
            &&& start is Unknown && end.disk.contains(seal) ==> disk.contains(seal)
                || end.state is Populated
            &&& start is Unknown && end.state is Populated ==> end.disk.contains(seal)
            &&& start is Unknown && luck.lock_free && luck.transport_up && luck.disk_up
                ==> end.state is Populated
        }),
{
    lemma_seal_is_apart(start.path()->0);
}

/// Two requests for the same source, one after the other. Where the first
/// has ended with the source, the second asks for no retrieval, and ends
/// with the source if it gets the lock: between them they retrieve at most
/// once. Where the first has asked for no retrieval, the same holds.
/// Where the retrieval of the first has failed, the source is absent
/// afterwards as it was before, and the second request retrieves anew.
pub proof fn lemma_load_twice_retrieves_once(
    start: FetchStateView,
    disk: Set<Seq<char>>,
    first_luck: Luck,
    second_luck: Luck,
)
    requires
        start is Unknown || start is Cached,
    ensures
        ({
            let first = run_load(start, disk, first_luck);
            let second = run_load(start, first.disk, second_luck);
            let seal = seal_path(start.path()->0);
            &&& first.state.is_final()
            &&& second.state.is_final()
            &&& first.state is Populated ==> second.retrievals == 0
            &&& first.state is Populated && second_luck.lock_free ==> second.state is Populated
            &&& first.state is Populated || first.retrievals == 0 ==> first.retrievals
                + second.retrievals <= 1
            &&& start is Cached ==> first.retrievals + second.retrievals == 0
            &&& start is Unknown && !disk.contains(seal) && first.state is Failed
                ==> !first.disk.contains(seal)
            &&& start is Unknown && !disk.contains(seal) && first.state is Failed
                && second_luck.lock_free ==> second.retrievals == 1
            &&& start is Unknown && !disk.contains(seal) && first.state is Failed
                && second_luck.lock_free && second_luck.transport_up && second_luck.disk_up
                ==> second.state is Populated
        }),
{
    lemma_seal_is_apart(start.path()->0);
}

/// Two requests for the same source that run at once, against a model of
/// the world.
pub struct Race {
    pub first: FetchStateView,
    pub second: FetchStateView,
    /// The paths that exist.
    pub disk: Set<Seq<char>>,
    /// Whether the lock on the source's directory is held, and if so
    /// whether by the first request. Whoever gets the lock keeps it while
    /// the other request runs.
    pub holder: Option<bool>,
    /// The retrievals that the two have asked for so far.
    pub retrievals: nat,
}

/// One turn of a race: which request moves, and how the world treats it.
/// Whether the lock can be had is not a matter of luck here.
pub struct Turn {
    pub first: bool,
    pub transport_up: bool,
    pub disk_up: bool,
}

impl Race {
    /// Two requests for the source that belongs at `path`, before either
    /// has moved.
    pub open spec fn start(path: Seq<char>, disk: Set<Seq<char>>) -> Race {
        Race {
            first: FetchStateView::Unknown { path },
            second: FetchStateView::Unknown { path },
            disk,
            holder: None,
            retrievals: 0,
        }
    }

    /// The request that moves at `turn`.
    pub open spec fn mover(self, turn: Turn) -> FetchStateView {
        if turn.first {
            self.first
        } else {
            self.second
        }
    }

    /// How the world treats the request that moves: the lock is acquired
    /// where nobody holds it.
    pub open spec fn luck(self, turn: Turn) -> Luck {
        Luck {
            lock_free: self.holder is None,
            transport_up: turn.transport_up,
            disk_up: turn.disk_up,
        }
    }

    /// The race after one turn.
    pub open spec fn step(self, turn: Turn) -> Race {
        let state = self.mover(turn);
        let action = state.action();
        let event = answer(action, self.disk, self.luck(turn));
        Race {
            first: if turn.first {
                state.next(event)
            } else {
                self.first
            },
            second: if turn.first {
                self.second
            } else {
                state.next(event)
            },
            disk: disk_after(action, event, self.disk),
            holder: if action is Lock && event == Event::LockAcquired {
                Some(turn.first)
            } else {
                self.holder
            },
            retrievals: if action is Retrieve {
                self.retrievals + 1
            } else {
                self.retrievals
            },
        }
    }

    /// The race after some turns.
    pub open spec fn run(self, turns: Seq<Turn>) -> Race
        decreases turns.len(),
    {
        if turns.len() == 0 {
            self
        } else {
            self.run(turns.drop_last()).step(turns.last())
        }
    }

    /// What holds of a race for the source at `path` at every turn. Before
    /// the lock is taken the directory is not sealed and nothing was
    /// retrieved. After it, the holder alone goes on to retrieve, and the
    /// other request has not come past the lock. The directory is sealed
    /// exactly where the holder has ended with the source: a probe never
    /// finds a source that is still being brought.
    pub open spec fn fair(self, path: Seq<char>) -> bool {
        match self.holder {
            None => {
                &&& !self.disk.contains(seal_path(path))
                &&& self.retrievals == 0
                &&& Race::waits(self.first, path)
                &&& Race::waits(self.second, path)
            },
            Some(first) => {
                let (winner, loser) = if first {
                    (self.first, self.second)
                } else {
                    (self.second, self.first)
                };
                &&& self.disk.contains(seal_path(path)) <==> winner is Populated
                &&& match winner {
                    FetchStateView::Locked { path: p } => p == path && self.retrievals == 0,
                    FetchStateView::Filled { path: p } => p == path && self.retrievals == 1,
                    FetchStateView::Failing { path: p } => p == path && self.retrievals == 1,
                    FetchStateView::Populated { path: p } => p == path && self.retrievals == 1,
                    FetchStateView::Failed { error } => error == ErrorKind::FetchFailure
                        && self.retrievals == 1,
                    _ => false,
                }
                &&& match loser {
                    FetchStateView::Cached { path: p } => p == path && winner is Populated,
                    FetchStateView::Failed { error } => error
                        == ErrorKind::LockAcquisitionFailure,
                    _ => Race::waits(loser, path),
                }
            },
        }
    }

    /// A request that has not yet asked for the lock on `path`, or has not
    /// yet been answered.
    pub open spec fn waits(state: FetchStateView, path: Seq<char>) -> bool {
        state == (FetchStateView::Unknown { path }) || state == (FetchStateView::Absent { path })
    }
}

/// One turn keeps a race fair.
proof fn lemma_race_step(race: Race, path: Seq<char>, turn: Turn)
    requires
        race.fair(path),
    ensures
        race.step(turn).fair(path),
{
    lemma_seal_is_apart(path);
}

/// Of two requests for the same source that run at once, whatever the
/// order of their steps, only the one that gets the lock retrieves, and it
/// does so once. The source was not cached when they began, and the lock
/// is kept while the other request runs. At every turn, whoever probes
/// for the source finds it only where the holder of the lock has ended
/// with it: never while it is being brought, and never after the bringing
/// has failed. When both have ended, one has retrieved, or failed to, and
/// the other was refused the lock.
pub proof fn lemma_race_retrieves_once(path: Seq<char>, disk: Set<Seq<char>>, turns: Seq<Turn>)
    requires
        !disk.contains(seal_path(path)),
    ensures
        ({
            let end = Race::start(path, disk).run(turns);
            &&& end.fair(path)
            &&& end.retrievals <= 1
            &&& end.disk.contains(seal_path(path)) ==> end.first is Populated || end.second
                is Populated
            &&& end.first.is_final() && end.second.is_final() ==> {
                &&& end.retrievals == 1
                &&& end.first is Populated ==> end.second == (FetchStateView::Failed {
                    error: ErrorKind::LockAcquisitionFailure,
                })
                &&& end.second is Populated ==> end.first == (FetchStateView::Failed {
                    error: ErrorKind::LockAcquisitionFailure,
                })
            }
        }),
    decreases turns.len(),
{
    if turns.len() > 0 {
        lemma_race_retrieves_once(path, disk, turns.drop_last());
        lemma_race_step(Race::start(path, disk).run(turns.drop_last()), path, turns.last());
    }
}

} // verus!
