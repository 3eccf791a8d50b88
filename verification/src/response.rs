//! What a request ends in: the response, or the fault that stopped it.

use crate::model::{users_view, User, UserView};
use crate::ranking::{ranked_view, RankedView, RankingEntry};
use crate::snapshot::Snapshot;
use crate::text::{decimal, decimal_string};
use vstd::prelude::*;

verus! {

/// Where the snapshot behind a response came from. `Default` marks a
/// response that was never filled in: no request ends with it.
#[derive(Clone, Copy, Debug, PartialEq, Eq, Structural)]
pub enum Source {
    MongoDB,
    Cache,
    Default,
}

impl Default for Source {
    fn default() -> (source: Source)
        ensures
            source == Source::Default,
    {
        Source::Default
    }
}

/// Why a request ended without a response.
#[derive(Clone, Copy, Debug, PartialEq, Eq, Structural)]
pub enum Fault {
    /// The page number is zero.
    BadRequest,
    /// The instant of the request has no civil hour with a year of four
    /// digits.
    Clock,
    /// A store or the cache did not answer.
    UpstreamUnavailable,
    /// The profile store answered with a document that is no profile.
    Decode,
    /// The ranking names an identifier that the snapshot does not hold.
    MissingProfile,
    /// An event arrived that answers no action under way.
    Protocol,
}

impl Fault {
    /// The HTTP status that reports the fault.
    pub open spec fn spec_status_code(self) -> u16 {
        match self {
            Fault::BadRequest => 400,
            Fault::UpstreamUnavailable => 503,
            Fault::Decode => 502,
            Fault::Clock | Fault::MissingProfile | Fault::Protocol => 500,
        }
    }

    /// The HTTP status that reports the fault: 400 for a bad request, a
    /// status of the 500s for everything else.
    pub fn status_code(&self) -> (code: u16)
        ensures
            code == self.spec_status_code(),
            *self == Fault::BadRequest ==> 400 <= code < 500,
            *self != Fault::BadRequest ==> 500 <= code < 600,
    {
        match self {
            Fault::BadRequest => 400,
            Fault::UpstreamUnavailable => 503,
            Fault::Decode => 502,
            Fault::Clock => 500,
            Fault::MissingProfile => 500,
            Fault::Protocol => 500,
        }
    }
}

/// The text after the number of minutes.
pub open spec fn minutes_suffix() -> Seq<char> {
    seq![' ', 'm', 'i', 'n', 'u', 't', 'e', 's']
}

/// The text after the number of milliseconds.
pub open spec fn millis_suffix() -> Seq<char> {
    seq!['m', 's']
}

/// The time left in the hour, as the response words it.
pub open spec fn time_to_hour_text(minutes: int) -> Seq<char> {
    decimal(minutes as nat) + minutes_suffix()
}

/// The time the request took, as the response words it.
pub open spec fn response_time_text(elapsed_ms: nat) -> Seq<char> {
    decimal(elapsed_ms) + millis_suffix()
}

/// What a response is, as mathematics.
pub struct ResponseView {
    pub total_users: u64,
    pub time_to_hour: Seq<char>,
    pub leaderboard: Seq<UserView>,
    pub source: Source,
    pub response_time: Seq<char>,
}

/// One page of the leaderboard with what goes with it.
#[derive(Clone, Debug)]
pub struct Response {
    pub total_users: u64,
    pub time_to_hour: String,
    pub leaderboard: Vec<User>,
    pub source: Source,
    pub response_time: String,
}

impl View for Response {
    type V = ResponseView;

    open spec fn view(&self) -> ResponseView {
        ResponseView {
            total_users: self.total_users,
            time_to_hour: self.time_to_hour@,
            leaderboard: users_view(self.leaderboard@),
            source: self.source,
            response_time: self.response_time@,
        }
    }
}

/// The response that reports the given rows, count and source.
pub open spec fn response_of(
    leaderboard: Seq<UserView>,
    total_users: u64,
    source: Source,
    minutes: int,
    elapsed_ms: nat,
) -> ResponseView {
    ResponseView {
        total_users,
        time_to_hour: time_to_hour_text(minutes),
        leaderboard,
        source,
        response_time: response_time_text(elapsed_ms),
    }
}

impl Response {
    /// The response that reports the given rows, count and source, with the
    /// minutes left in the hour and the milliseconds taken put into words.
    pub fn build(
        leaderboard: Vec<User>,
        total_users: u64,
        source: Source,
        minutes: u32,
        elapsed_ms: u128,
    ) -> (response: Response)
        ensures
            response@ == response_of(
                users_view(leaderboard@),
                total_users,
                source,
                minutes as int,
                elapsed_ms as nat,
            ),
    {
        let mut time_to_hour = decimal_string(minutes as u128);
        time_to_hour.append(" minutes");
        let mut response_time = decimal_string(elapsed_ms);
        response_time.append("ms");
        proof {
            reveal_strlit(" minutes");
            reveal_strlit("ms");
            assert(" minutes"@ =~= minutes_suffix());
            assert("ms"@ =~= millis_suffix());
        }
        Response { total_users, time_to_hour, leaderboard, source, response_time }
    }
}

/// The profile that each ranking entry names, carrying the entry's score,
/// in the order of the ranking.
pub open spec fn joined(
    ranked: Seq<RankedView>,
    snapshot: Map<Seq<char>, UserView>,
) -> Seq<UserView> {
    Seq::new(
        ranked.len(),
        |i: int| UserView { score: ranked[i].score, ..snapshot[ranked[i].id] },
    )
}

/// Whether the snapshot holds every identifier that the ranking names.
pub open spec fn all_present(ranked: Seq<RankedView>, snapshot: Map<Seq<char>, UserView>) -> bool {
    forall|i: int| 0 <= i < ranked.len() ==> snapshot.contains_key(#[trigger] ranked[i].id)
}

/// The rows of the leaderboard, or the fault where a profile is missing.
pub open spec fn join_result(
    ranked: Seq<RankedView>,
    snapshot: Map<Seq<char>, UserView>,
) -> Result<Seq<UserView>, Fault> {
    if all_present(ranked, snapshot) {
        Ok(joined(ranked, snapshot))
    } else {
        Err(Fault::MissingProfile)
    }
}

/// The view of rows or a fault.
pub open spec fn board_view(board: Result<Vec<User>, Fault>) -> Result<Seq<UserView>, Fault> {
    match board {
        Ok(rows) => Ok(users_view(rows@)),
        Err(fault) => Err(fault),
    }
}

/// Joins the ranking against the snapshot: one row for each entry, in the
/// ranking's order, each the profile that the entry names with the entry's
/// score. Where the snapshot lacks a profile, the join is a fault.
pub fn join(ranked: &Vec<RankingEntry>, snapshot: &Snapshot) -> (board: Result<Vec<User>, Fault>)
    ensures
        board_view(board) == join_result(ranked_view(ranked@), snapshot@),
{
    let ghost entries = ranked_view(ranked@);
    let mut rows: Vec<User> = Vec::new();
    let mut i: usize = 0;
    while i < ranked.len()
        invariant
            i <= ranked.len(),
            entries == ranked_view(ranked@),
            rows.len() == i,
            forall|j: int| 0 <= j < i ==> snapshot@.contains_key(#[trigger] entries[j].id),
            forall|j: int| 0 <= j < i ==> #[trigger] rows[j]@ == joined(entries, snapshot@)[j],
        decreases ranked.len() - i,
    {
        let entry = &ranked[i];
        assert(entries[i as int] == entry@);
        match snapshot.get(&entry.id) {
            Some(user) => {
                rows.push(user.with_score(entry.score));
            },
            None => {
                assert(!snapshot@.contains_key(entries[i as int].id));
                assert(!all_present(entries, snapshot@));
                return Err(Fault::MissingProfile);
            },
        }
        i = i + 1;
    }
    assert(users_view(rows@) =~= joined(entries, snapshot@));
    Ok(rows)
}

} // verus!
