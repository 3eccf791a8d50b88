//! One request as a state machine: each step takes what a store or the cache
//! answered and says what to ask next, until it replies or fails.

use crate::clock::{civil_hour_at, civil_hour_shifted, CivilHour, CivilHourView};
use crate::model::{users_view, User, UserView};
use crate::ranking::{
    page_window, ranked_view, window_start, window_stop, RankedView, RankingEntry,
};
use crate::response::{
    board_view, join, join_result, response_of, Fault, Response, ResponseView, Source,
};
use crate::snapshot::{profile_index, Snapshot};
use vstd::prelude::*;

verus! {

/// The cache key under which the snapshot is kept.
pub const USERS_KEY: &'static str = "users";

/// The cache key under which the count of profiles is kept.
pub const USERS_COUNT_KEY: &'static str = "users_count";

/// What the outside world answered to the last action.
#[derive(Debug)]
pub enum Event {
    /// The ranking store's answer to a range query.
    Ranked(Vec<RankingEntry>),
    /// The cached snapshot, or `None` where the cache holds none that can be
    /// read.
    SnapshotRead(Option<Snapshot>),
    /// The cached count of profiles, or `None` where the cache holds none.
    CountRead(Option<u64>),
    /// Every profile of the profile store.
    Profiles(Vec<User>),
    /// The snapshot is in the cache.
    SnapshotStored,
    /// The number of profiles in the profile store.
    Counted(u64),
    /// The count is in the cache.
    CountStored,
    /// The store or cache that was asked did not answer.
    Unavailable,
    /// The profile store answered with a document that is no profile.
    Undecodable,
}

/// What the machine asks of the outside world next.
#[derive(Debug)]
pub enum Action {
    /// Ask the ranking store for the entries of the sorted set `key` at the
    /// ranks `start..=stop`, highest score first.
    ReadRanking { key: String, start: i64, stop: i64 },
    /// Read the snapshot from the cache, at `USERS_KEY`.
    ReadSnapshot,
    /// Read the count of profiles from the cache, at `USERS_COUNT_KEY`.
    ReadCount,
    /// Fetch every profile from the profile store.
    FetchProfiles,
    /// Write the snapshot to the cache, at `USERS_KEY`, to expire after
    /// `ttl_seconds`.
    StoreSnapshot { snapshot: Snapshot, ttl_seconds: u64 },
    /// Count the profiles in the profile store.
    CountProfiles,
    /// Write the count to the cache, at `USERS_COUNT_KEY`, to expire after
    /// `ttl_seconds`.
    StoreCount { count: u64, ttl_seconds: u64 },
    /// The request is done: send the response.
    Reply(Response),
    /// The request is over: report the fault.
    Fail(Fault),
}

/// What an event is, as mathematics.
pub enum EventView {
    Ranked(Seq<RankedView>),
    SnapshotRead(Option<Map<Seq<char>, UserView>>),
    CountRead(Option<u64>),
    Profiles(Seq<UserView>),
    SnapshotStored,
    Counted(u64),
    CountStored,
    Unavailable,
    Undecodable,
}

/// What an action is, as mathematics.
pub enum ActionView {
    ReadRanking { key: Seq<char>, start: int, stop: int },
    ReadSnapshot,
    ReadCount,
    FetchProfiles,
    StoreSnapshot { snapshot: Map<Seq<char>, UserView>, ttl_seconds: int },
    CountProfiles,
    StoreCount { count: u64, ttl_seconds: int },
    Reply(ResponseView),
    Fail(Fault),
}

impl View for Event {
    type V = EventView;

    open spec fn view(&self) -> EventView {
        match *self {
            Event::Ranked(entries) => EventView::Ranked(ranked_view(entries@)),
            Event::SnapshotRead(Some(snapshot)) => EventView::SnapshotRead(Some(snapshot@)),
            Event::SnapshotRead(None) => EventView::SnapshotRead(None),
            Event::CountRead(count) => EventView::CountRead(count),
            Event::Profiles(profiles) => EventView::Profiles(users_view(profiles@)),
            Event::SnapshotStored => EventView::SnapshotStored,
            Event::Counted(count) => EventView::Counted(count),
            Event::CountStored => EventView::CountStored,
            Event::Unavailable => EventView::Unavailable,
            Event::Undecodable => EventView::Undecodable,
        }
    }
}

impl View for Action {
    type V = ActionView;

    open spec fn view(&self) -> ActionView {
        match *self {
            Action::ReadRanking { key, start, stop } => ActionView::ReadRanking {
                key: key@,
                start: start as int,
                stop: stop as int,
            },
            Action::ReadSnapshot => ActionView::ReadSnapshot,
            Action::ReadCount => ActionView::ReadCount,
            Action::FetchProfiles => ActionView::FetchProfiles,
            Action::StoreSnapshot { snapshot, ttl_seconds } => ActionView::StoreSnapshot {
                snapshot: snapshot@,
                ttl_seconds: ttl_seconds as int,
            },
            Action::CountProfiles => ActionView::CountProfiles,
            Action::StoreCount { count, ttl_seconds } => ActionView::StoreCount {
                count,
                ttl_seconds: ttl_seconds as int,
            },
            Action::Reply(response) => ActionView::Reply(response@),
            Action::Fail(fault) => ActionView::Fail(fault),
        }
    }
}

impl ActionView {
    /// Whether the action ends the request.
    pub open spec fn is_final(self) -> bool {
        self is Reply || self is Fail
    }
}

/// How far a request has come, as mathematics: which answer it waits for,
/// and what it has gathered.
pub enum PhaseView {
    AwaitRanking,
    AwaitSnapshot { ranked: Seq<RankedView> },
    AwaitCachedCount { ranked: Seq<RankedView>, board: Result<Seq<UserView>, Fault> },
    AwaitProfiles { ranked: Seq<RankedView> },
    AwaitSnapshotStored { board: Result<Seq<UserView>, Fault> },
    AwaitCount { board: Result<Seq<UserView>, Fault> },
    AwaitCountStored { board: Result<Seq<UserView>, Fault>, count: u64 },
    Closed,
}

/// What a machine is, as mathematics.
pub struct MachineView {
    pub minutes: int,
    pub phase: PhaseView,
}

#[derive(Debug)]
enum Phase {
    AwaitRanking,
    AwaitSnapshot { ranked: Vec<RankingEntry> },
    AwaitCachedCount { ranked: Vec<RankingEntry>, board: Result<Vec<User>, Fault> },
    AwaitProfiles { ranked: Vec<RankingEntry> },
    AwaitSnapshotStored { board: Result<Vec<User>, Fault> },
    AwaitCount { board: Result<Vec<User>, Fault> },
    AwaitCountStored { board: Result<Vec<User>, Fault>, count: u64 },
    Closed,
}

impl View for Phase {
    type V = PhaseView;

    closed spec fn view(&self) -> PhaseView {
        match *self {
            Phase::AwaitRanking => PhaseView::AwaitRanking,
            Phase::AwaitSnapshot { ranked } => PhaseView::AwaitSnapshot {
                ranked: ranked_view(ranked@),
            },
            Phase::AwaitCachedCount { ranked, board } => PhaseView::AwaitCachedCount {
                ranked: ranked_view(ranked@),
                board: board_view(board),
            },
            Phase::AwaitProfiles { ranked } => PhaseView::AwaitProfiles {
                ranked: ranked_view(ranked@),
            },
            Phase::AwaitSnapshotStored { board } => PhaseView::AwaitSnapshotStored {
                board: board_view(board),
            },
            Phase::AwaitCount { board } => PhaseView::AwaitCount { board: board_view(board) },
            Phase::AwaitCountStored { board, count } => PhaseView::AwaitCountStored {
                board: board_view(board),
                count,
            },
            Phase::Closed => PhaseView::Closed,
        }
    }
}

/// The state of one request between two steps.
#[derive(Debug)]
pub struct Machine {
    minutes: u32,
    phase: Phase,
}

impl View for Machine {
    type V = MachineView;

    closed spec fn view(&self) -> MachineView {
        MachineView { minutes: self.minutes as int, phase: self.phase@ }
    }
}

/// Whether a snapshot read from the cache can serve: it is there and maps
/// something.
pub open spec fn snapshot_serves(snapshot: Option<Map<Seq<char>, UserView>>) -> bool {
    snapshot matches Some(map) && map != Map::<Seq<char>, UserView>::empty()
}

/// The seconds after which what the machine writes to the cache expires.
pub open spec fn ttl_of(minutes: int) -> int {
    60 * minutes
}

impl MachineView {
    /// The machine in another phase.
    pub open spec fn at(self, phase: PhaseView) -> MachineView {
        MachineView { minutes: self.minutes, phase }
    }

    /// The machine ends the request with a fault.
    pub open spec fn fail(self, fault: Fault) -> (MachineView, ActionView) {
        (self.at(PhaseView::Closed), ActionView::Fail(fault))
    }

    /// The machine ends the request: with the response that reports the
    /// rows, or with the fault that the join met.
    pub open spec fn finish(
        self,
        board: Result<Seq<UserView>, Fault>,
        count: u64,
        source: Source,
        elapsed_ms: nat,
    ) -> (MachineView, ActionView) {
        match board {
            Ok(rows) => (
                self.at(PhaseView::Closed),
                ActionView::Reply(response_of(rows, count, source, self.minutes, elapsed_ms)),
            ),
            Err(fault) => self.fail(fault),
        }
    }

    /// The machine turns to the profile store to build the snapshot anew.
    pub open spec fn rebuild(self, ranked: Seq<RankedView>) -> (MachineView, ActionView) {
        (self.at(PhaseView::AwaitProfiles { ranked }), ActionView::FetchProfiles)
    }

    /// One step: the next state and the next action, given the state and
    /// the answer to the last action. `elapsed_ms` is the time since the
    /// request began; it is put into the response where the step replies.
    pub open spec fn step(self, event: EventView, elapsed_ms: nat) -> (MachineView, ActionView) {
        match (self.phase, event) {
            (PhaseView::Closed, _) => self.fail(Fault::Protocol),
            (_, EventView::Unavailable) => self.fail(Fault::UpstreamUnavailable),
            (_, EventView::Undecodable) => self.fail(Fault::Decode),
            (PhaseView::AwaitRanking, EventView::Ranked(ranked)) => (
                self.at(PhaseView::AwaitSnapshot { ranked }),
                ActionView::ReadSnapshot,
            ),
            (PhaseView::AwaitSnapshot { ranked }, EventView::SnapshotRead(snapshot)) => {
                if snapshot_serves(snapshot) {
                    (
                        self.at(
                            PhaseView::AwaitCachedCount {
                                ranked,
                                board: join_result(ranked, snapshot->0),
                            },
                        ),
                        ActionView::ReadCount,
                    )
                } else {
                    self.rebuild(ranked)
                }
            },
            (PhaseView::AwaitCachedCount { ranked, board }, EventView::CountRead(count)) => {
                match count {
                    Some(count) => self.finish(board, count, Source::Cache, elapsed_ms),
                    None => self.rebuild(ranked),
                }
            },
            (PhaseView::AwaitProfiles { ranked }, EventView::Profiles(profiles)) => {
                let snapshot = profile_index(profiles);
                let board = join_result(ranked, snapshot);
                (
                    self.at(PhaseView::AwaitSnapshotStored { board }),
                    ActionView::StoreSnapshot { snapshot, ttl_seconds: ttl_of(self.minutes) },
                )
            },
            (PhaseView::AwaitSnapshotStored { board }, EventView::SnapshotStored) => (
                self.at(PhaseView::AwaitCount { board }),
                ActionView::CountProfiles,
            ),
            (PhaseView::AwaitCount { board }, EventView::Counted(count)) => (
                self.at(PhaseView::AwaitCountStored { board, count }),
                ActionView::StoreCount { count, ttl_seconds: ttl_of(self.minutes) },
            ),
            (PhaseView::AwaitCountStored { board, count }, EventView::CountStored) => self.finish(
                board,
                count,
                Source::MongoDB,
                elapsed_ms,
            ),
            _ => self.fail(Fault::Protocol),
        }
    }
}

/// The first step of the request for page `page` at the civil hour `clock`:
/// a range query for the page's window in the hour's bucket, or the fault
/// that there is no page zero.
pub open spec fn begin_step(page: int, clock: CivilHourView) -> (MachineView, ActionView) {
    let machine = MachineView {
        minutes: clock.minutes_to_next_hour(),
        phase: PhaseView::AwaitRanking,
    };
    if page >= 1 {
        (
            machine,
            ActionView::ReadRanking {
                key: clock.bucket_key(),
                start: window_start(page),
                stop: window_stop(page),
            },
        )
    } else {
        machine.fail(Fault::BadRequest)
    }
}

/// The first step of the request for page `page` at the instant `now`, the
/// buckets running `offset_hours` ahead of UTC.
pub open spec fn begin_step_at(page: int, now: int, offset_hours: int) -> (
    MachineView,
    ActionView,
) {
    match civil_hour_shifted(now, offset_hours) {
        Some(clock) => begin_step(page, clock),
        None => (MachineView { minutes: 0, phase: PhaseView::Closed }).fail(
            if page >= 1 {
                Fault::Clock
            } else {
                Fault::BadRequest
            },
        ),
    }
}

/// The closed machine that keeps the given minutes.
spec fn closed_with(minutes: u32) -> MachineView {
    MachineView { minutes: minutes as int, phase: PhaseView::Closed }
}

impl Machine {
    fn at(minutes: u32, phase: Phase) -> (machine: Machine)
        ensures
            machine@ == (MachineView { minutes: minutes as int, phase: phase@ }),
    {
        Machine { minutes, phase }
    }

    fn fail(minutes: u32, fault: Fault) -> (next: (Machine, Action))
        ensures
            (next.0@, next.1@) == closed_with(minutes).fail(fault),
    {
        (Machine::at(minutes, Phase::Closed), Action::Fail(fault))
    }

    fn finish(
        minutes: u32,
        board: Result<Vec<User>, Fault>,
        count: u64,
        source: Source,
        elapsed_ms: u128,
    ) -> (next: (Machine, Action))
        ensures
            (next.0@, next.1@) == closed_with(minutes).finish(
                board_view(board),
                count,
                source,
                elapsed_ms as nat,
            ),
    {
        match board {
            Ok(rows) => (
                Machine::at(minutes, Phase::Closed),
                Action::Reply(Response::build(rows, count, source, minutes, elapsed_ms)),
            ),
            Err(fault) => Machine::fail(minutes, fault),
        }
    }

    fn rebuild(minutes: u32, ranked: Vec<RankingEntry>) -> (next: (Machine, Action))
        ensures
            (next.0@, next.1@) == closed_with(minutes).rebuild(ranked_view(ranked@)),
    {
        (Machine::at(minutes, Phase::AwaitProfiles { ranked }), Action::FetchProfiles)
    }

    /// Begins the request for page `page` at the civil hour `clock`, the
    /// hour of the ranking bucket: the machine and its first action.
    pub fn begin(page: u32, clock: &CivilHour) -> (next: (Machine, Action))
        ensures
            (next.0@, next.1@) == begin_step(page as int, clock@),
    {
        let minutes = clock.minutes_to_next_hour();
        match page_window(page) {
            Some((start, stop)) => (
                Machine::at(minutes, Phase::AwaitRanking),
                Action::ReadRanking { key: clock.bucket_key(), start, stop },
            ),
            None => Machine::fail(minutes, Fault::BadRequest),
        }
    }

    /// Begins the request for page `page` at the instant `now`, in seconds
    /// since the epoch, the buckets running `offset_hours` ahead of UTC.
    pub fn begin_at(page: u32, now: i64, offset_hours: i64) -> (next: (Machine, Action))
        ensures
            (next.0@, next.1@) == begin_step_at(page as int, now as int, offset_hours as int),
    {
        match civil_hour_at(now, offset_hours) {
            Some(clock) => Machine::begin(page, &clock),
            None => Machine::fail(
                0,
                if page >= 1 {
                    Fault::Clock
                } else {
                    Fault::BadRequest
                },
            ),
        }
    }

    /// Whether the request is over: the machine has replied or failed.
    pub fn is_closed(&self) -> (closed: bool)
        ensures
            closed == (self@.phase is Closed),
    {
        match self.phase {
            Phase::Closed => true,
            _ => false,
        }
    }

    /// Whole minutes until the hour ends, as the request took them from its
    /// clock.
    pub fn minutes(&self) -> (minutes: u32)
        ensures
            minutes == self@.minutes,
    {
        self.minutes
    }

    /// One step: takes the answer to the last action and gives the next
    /// state and the next action. `elapsed_ms` is the time since the
    /// request began, in milliseconds.
    pub fn advance(self, event: Event, elapsed_ms: u128) -> (next: (Machine, Action))
        ensures
            (next.0@, next.1@) == self@.step(event@, elapsed_ms as nat),
    {
        let minutes = self.minutes;
        let ttl_seconds: u64 = 60 * (minutes as u64);
        match (self.phase, event) {
            (Phase::Closed, _) => Machine::fail(minutes, Fault::Protocol),
            (_, Event::Unavailable) => Machine::fail(minutes, Fault::UpstreamUnavailable),
            (_, Event::Undecodable) => Machine::fail(minutes, Fault::Decode),
            (Phase::AwaitRanking, Event::Ranked(ranked)) => (
                Machine::at(minutes, Phase::AwaitSnapshot { ranked }),
                Action::ReadSnapshot,
            ),
            (Phase::AwaitSnapshot { ranked }, Event::SnapshotRead(Some(snapshot))) => {
                if snapshot.is_empty() {
                    Machine::rebuild(minutes, ranked)
                } else {
                    let board = join(&ranked, &snapshot);
                    (
                        Machine::at(minutes, Phase::AwaitCachedCount { ranked, board }),
                        Action::ReadCount,
                    )
                }
            },
            (Phase::AwaitSnapshot { ranked }, Event::SnapshotRead(None)) => Machine::rebuild(
                minutes,
                ranked,
            ),
            (Phase::AwaitCachedCount { ranked, board }, Event::CountRead(Some(count))) => {
                Machine::finish(minutes, board, count, Source::Cache, elapsed_ms)
            },
            (Phase::AwaitCachedCount { ranked, board }, Event::CountRead(None)) => {
                Machine::rebuild(minutes, ranked)
            },
            (Phase::AwaitProfiles { ranked }, Event::Profiles(profiles)) => {
                let snapshot = Snapshot::from_profiles(&profiles);
                let board = join(&ranked, &snapshot);
                (
                    Machine::at(minutes, Phase::AwaitSnapshotStored { board }),
                    Action::StoreSnapshot { snapshot, ttl_seconds },
                )
            },
            (Phase::AwaitSnapshotStored { board }, Event::SnapshotStored) => (
                Machine::at(minutes, Phase::AwaitCount { board }),
                Action::CountProfiles,
            ),
            (Phase::AwaitCount { board }, Event::Counted(count)) => (
                Machine::at(minutes, Phase::AwaitCountStored { board, count }),
                Action::StoreCount { count, ttl_seconds },
            ),
            (Phase::AwaitCountStored { board, count }, Event::CountStored) => Machine::finish(
                minutes,
                board,
                count,
                Source::MongoDB,
                elapsed_ms,
            ),
            _ => Machine::fail(minutes, Fault::Protocol),
        }
    }
}

} // verus!
