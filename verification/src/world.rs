//! A model of what surrounds a request (the ranking store, the profile
//! store and the cache) and what a whole request does in it.

use crate::clock::{
    civil_hour_shifted, hour_of_day, is_bucket_key, lemma_bucket_key_shape, lemma_same_hour,
    lemma_shift_keeps_minute, minute_of_hour, shifted, CivilHourView,
};
use crate::machine::{
    begin_step, begin_step_at, snapshot_serves, ActionView, EventView, MachineView,
};
use crate::model::UserView;
use crate::ranking::{
    lemma_page_descends, lemma_page_size, page_of, range_desc, scores_descend, RankedView,
};
use crate::response::{all_present, joined, time_to_hour_text, Fault, Source};
use crate::snapshot::profile_index;
use vstd::prelude::*;

verus! {

/// The stores and the cache at one moment.
pub struct World {
    /// The sorted sets of the ranking store, by bucket key.
    pub ranking: Map<Seq<char>, Seq<RankedView>>,
    /// The documents of the profile store, in the order in which it hands
    /// them out.
    pub profiles: Seq<UserView>,
    /// What the profile store answers when asked to count.
    pub profile_count: u64,
    /// The cached snapshot and the seconds it has to live, if there is one.
    pub cached_snapshot: Option<(Map<Seq<char>, UserView>, int)>,
    /// The cached count and the seconds it has to live, if there is one.
    pub cached_count: Option<(u64, int)>,
    /// How many times the cache was written.
    pub writes: nat,
}

impl World {
    /// The sorted set under `key`; a key that is not there holds nothing.
    pub open spec fn bucket(self, key: Seq<char>) -> Seq<RankedView> {
        if self.ranking.contains_key(key) {
            self.ranking[key]
        } else {
            Seq::empty()
        }
    }

    /// Every sorted set of the ranking store keeps its entries by
    /// descending score.
    pub open spec fn wf(self) -> bool {
        forall|key: Seq<char>|
            self.ranking.contains_key(key) ==> scores_descend(#[trigger] self.ranking[key])
    }

    /// The snapshot that the cache holds, if it holds one.
    pub open spec fn snapshot_read(self) -> Option<Map<Seq<char>, UserView>> {
        match self.cached_snapshot {
            Some((snapshot, _)) => Some(snapshot),
            None => None,
        }
    }

    /// The count that the cache holds, if it holds one.
    pub open spec fn count_read(self) -> Option<u64> {
        match self.cached_count {
            Some((count, _)) => Some(count),
            None => None,
        }
    }

    /// Whether the cache can serve a request: it holds a snapshot that maps
    /// something, and a count.
    pub open spec fn cache_warm(self) -> bool {
        snapshot_serves(self.snapshot_read()) && self.cached_count is Some
    }

    /// The snapshot that a request joins against: the cached one where the
    /// cache is warm, else the one built from the profile store.
    pub open spec fn snapshot_in_effect(self) -> Map<Seq<char>, UserView> {
        if self.cache_warm() {
            self.snapshot_read()->0
        } else {
            profile_index(self.profiles)
        }
    }

    /// What the world answers to an action, and the world after it.
    pub open spec fn answer(self, action: ActionView) -> (World, EventView) {
        match action {
            ActionView::ReadRanking { key, start, stop } => (
                self,
                EventView::Ranked(range_desc(self.bucket(key), start, stop)),
            ),
            ActionView::ReadSnapshot => (self, EventView::SnapshotRead(self.snapshot_read())),
            ActionView::ReadCount => (self, EventView::CountRead(self.count_read())),
            ActionView::FetchProfiles => (self, EventView::Profiles(self.profiles)),
            ActionView::StoreSnapshot { snapshot, ttl_seconds } => (
                World {
                    cached_snapshot: Some((snapshot, ttl_seconds)),
                    writes: self.writes + 1,
                    ..self
                },
                EventView::SnapshotStored,
            ),
            ActionView::CountProfiles => (self, EventView::Counted(self.profile_count)),
            ActionView::StoreCount { count, ttl_seconds } => (
                World {
                    cached_count: Some((count, ttl_seconds)),
                    writes: self.writes + 1,
                    ..self
                },
                EventView::CountStored,
            ),
            ActionView::Reply(_) => (self, EventView::Unavailable),
            ActionView::Fail(_) => (self, EventView::Unavailable),
        }
    }

    /// The machine run against the world, each action answered in turn, for
    /// at most `steps` steps: the action it stops at, and the world then.
    pub open spec fn run(
        self,
        machine: MachineView,
        action: ActionView,
        elapsed_ms: nat,
        steps: nat,
    ) -> (ActionView, World)
        decreases steps,
    {
        if action.is_final() || steps == 0 {
            (action, self)
        } else {
            let (world, event) = self.answer(action);
            let (next, asked) = machine.step(event, elapsed_ms);
            world.run(next, asked, elapsed_ms, (steps - 1) as nat)
        }
    }

    /// The request for page `page` at the civil hour `clock`, served in this
    /// world: how it ends, and the world after it.
    pub open spec fn serve(self, page: int, clock: CivilHourView, elapsed_ms: nat) -> (
        ActionView,
        World,
    ) {
        let (machine, action) = begin_step(page, clock);
        self.run(machine, action, elapsed_ms, 8)
    }

    /// The request for page `page` at the instant `now`, the buckets
    /// running `offset_hours` ahead of UTC, served in this world.
    pub open spec fn serve_at(self, page: int, now: int, offset_hours: int, elapsed_ms: nat) -> (
        ActionView,
        World,
    ) {
        let (machine, action) = begin_step_at(page, now, offset_hours);
        self.run(machine, action, elapsed_ms, 8)
    }
}

/// A request always ends. It ends in a response exactly where the page
/// number is at least one and the snapshot holds every profile that the
/// page names; a page zero is a bad request, and a missing profile a fault of
/// its own.
pub proof fn law_outcome(world: World, page: int, clock: CivilHourView, elapsed_ms: nat)
    ensures
        world.serve(page, clock, elapsed_ms).0.is_final(),
        page < 1 ==> world.serve(page, clock, elapsed_ms) == (
            ActionView::Fail(Fault::BadRequest),
            world,
        ),
        page >= 1 ==> (world.serve(page, clock, elapsed_ms).0 is Reply <==> all_present(
            page_of(world.bucket(clock.bucket_key()), page),
            world.snapshot_in_effect(),
        )),
        page >= 1 && !(world.serve(page, clock, elapsed_ms).0 is Reply) ==> world.serve(
            page,
            clock,
            elapsed_ms,
        ).0 == ActionView::Fail(Fault::MissingProfile),
{
    reveal_with_fuel(World::run, 9);
}

/// The rows of a response are the rows of the requested page of the hour's
/// ranking, each joined with the profile that it names, in the ranking's
/// order.
pub proof fn law_pagination_window(world: World, page: int, clock: CivilHourView, elapsed_ms: nat)
    requires
        page >= 1,
    ensures
        world.serve(page, clock, elapsed_ms).0 matches ActionView::Reply(response)
            ==> response.leaderboard == joined(
            page_of(world.bucket(clock.bucket_key()), page),
            world.snapshot_in_effect(),
        ),
{
    reveal_with_fuel(World::run, 9);
}

/// A response holds at most twenty-five rows, and holds twenty-five exactly
/// where the hour's ranking reaches the last row of the page.
pub proof fn law_size_bound(world: World, page: int, clock: CivilHourView, elapsed_ms: nat)
    requires
        page >= 1,
    ensures
        world.serve(page, clock, elapsed_ms).0 matches ActionView::Reply(response) ==> {
            &&& response.leaderboard.len() <= 25
            &&& (response.leaderboard.len() == 25 <==> world.bucket(clock.bucket_key()).len()
                >= 25 * page)
        },
{
    law_pagination_window(world, page, clock, elapsed_ms);
    lemma_page_size(world.bucket(clock.bucket_key()), page);
}

/// The scores of a response never rise from one row to the next, the
/// ranking store keeping its sets by descending score.
pub proof fn law_monotone_scores(world: World, page: int, clock: CivilHourView, elapsed_ms: nat)
    requires
        page >= 1,
        world.wf(),
    ensures
        world.serve(page, clock, elapsed_ms).0 matches ActionView::Reply(response) ==> forall|
            i: int,
            j: int,
        |
            0 <= i <= j < response.leaderboard.len() ==> response.leaderboard[i].score
                >= response.leaderboard[j].score,
{
    law_pagination_window(world, page, clock, elapsed_ms);
    let all = world.bucket(clock.bucket_key());
    assert(scores_descend(all));
    lemma_page_descends(all, page);
}

/// Where the cache cannot serve, the request reads the profile store: a
/// response names it as the source, and afterwards the cache holds the
/// snapshot of the profiles and their count, both to expire sixty seconds
/// for each minute left in the hour. Where the cache can serve, a response
/// names the cache, and the request leaves the world as it found it: it
/// writes nothing.
pub proof fn law_cache_provenance(world: World, page: int, clock: CivilHourView, elapsed_ms: nat)
    requires
        page >= 1,
    ensures
        ({
            let (outcome, after) = world.serve(page, clock, elapsed_ms);
            let ttl = 60 * clock.minutes_to_next_hour();
            if world.cache_warm() {
                &&& outcome matches ActionView::Reply(response) ==> response.source
                    == Source::Cache
                &&& after == world
            } else {
                &&& outcome matches ActionView::Reply(response) ==> response.source
                    == Source::MongoDB
                &&& after.cached_snapshot == Some((profile_index(world.profiles), ttl))
                &&& after.cached_count == Some((world.profile_count, ttl))
                &&& after.writes == world.writes + 2
                &&& after.ranking == world.ranking
                &&& after.profiles == world.profiles
                &&& after.profile_count == world.profile_count
            }
        }),
{
    reveal_with_fuel(World::run, 9);
}

/// A response that names the profile store as its source reports the count
/// that the profile store gave during the request; one that names the cache
/// reports the cached count.
pub proof fn law_count_agreement(world: World, page: int, clock: CivilHourView, elapsed_ms: nat)
    requires
        page >= 1,
    ensures
        world.serve(page, clock, elapsed_ms).0 matches ActionView::Reply(response) ==> {
            &&& response.source == Source::MongoDB ==> response.total_users
                == world.profile_count
            &&& response.source == Source::Cache ==> world.count_read() == Some(
                response.total_users,
            )
            &&& response.source != Source::Default
        },
{
    reveal_with_fuel(World::run, 9);
}

/// The first thing a request asks for is the window of its page in the
/// bucket of its hour. The key of that bucket is eight digits, a hyphen and
/// two digits; its hour is the hour of the day of the shifted instant; and
/// any other instant within the same hour, where its shifted instant fits
/// the seconds counter, has the same civil hour but for the minute, and so
/// the same key.
pub proof fn law_bucket_key(page: int, now: int, other: int, offset_hours: int)
    requires
        page >= 1,
    ensures
        civil_hour_shifted(now, offset_hours) matches Some(clock) ==> {
            &&& begin_step_at(page, now, offset_hours).1 == (ActionView::ReadRanking {
                key: clock.bucket_key(),
                start: 25 * (page - 1),
                stop: 25 * page - 1,
            })
            &&& is_bucket_key(clock.bucket_key())
            &&& clock.hour == hour_of_day(shifted(now, offset_hours))
            &&& now / 3600 == other / 3600 && i64::MIN <= shifted(other, offset_hours)
                <= i64::MAX ==> civil_hour_shifted(other, offset_hours) == Some(
                CivilHourView { minute: minute_of_hour(other), ..clock },
            )
        },
{
    if civil_hour_shifted(now, offset_hours) is Some {
        let clock = civil_hour_shifted(now, offset_hours)->0;
        lemma_bucket_key_shape(clock);
        if now / 3600 == other / 3600 {
            let a = shifted(now, offset_hours);
            let b = shifted(other, offset_hours);
            vstd::arithmetic::div_mod::lemma_fundamental_div_mod(now, 3600);
            vstd::arithmetic::div_mod::lemma_fundamental_div_mod(other, 3600);
            vstd::arithmetic::div_mod::lemma_mod_bound(now, 3600);
            vstd::arithmetic::div_mod::lemma_mod_bound(other, 3600);
            vstd::arithmetic::div_mod::lemma_mod_bound(other / 60, 60);
            assert(a / 3600 == b / 3600) by {
                vstd::arithmetic::div_mod::lemma_fundamental_div_mod_converse(
                    a,
                    3600,
                    now / 3600 + offset_hours,
                    now % 3600,
                );
                vstd::arithmetic::div_mod::lemma_fundamental_div_mod_converse(
                    b,
                    3600,
                    other / 3600 + offset_hours,
                    other % 3600,
                );
            }
            lemma_same_hour(a, b);
            lemma_shift_keeps_minute(other, offset_hours);
        }
    }
}

/// A response words the time left in the hour as sixty less the minute of
/// the hour of the request's instant, then ` minutes`.
pub proof fn law_time_to_hour(
    world: World,
    page: int,
    now: int,
    offset_hours: int,
    elapsed_ms: nat,
)
    ensures
        world.serve_at(page, now, offset_hours, elapsed_ms).0 matches ActionView::Reply(response)
            ==> response.time_to_hour == time_to_hour_text(60 - minute_of_hour(now)),
{
    reveal_with_fuel(World::run, 9);
    lemma_shift_keeps_minute(now, offset_hours);
}

} // verus!
