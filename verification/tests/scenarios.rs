use leaderboard::clock::CivilHour;
use leaderboard::machine::{Action, Event, Machine};
use leaderboard::model::{ObjectId, User};
use leaderboard::ranking::RankingEntry;
use leaderboard::response::{Fault, Response, Source};
use leaderboard::snapshot::Snapshot;
use std::collections::HashMap;

/// The stores and the cache, held in memory.
struct Stores {
    ranking: HashMap<String, Vec<(String, u32)>>,
    profiles: Vec<User>,
    profile_count: u64,
    cached_snapshot: Option<(Snapshot, u64)>,
    cached_count: Option<(u64, u64)>,
    writes: u32,
    asked: Vec<String>,
}

fn object_id(n: u8) -> ObjectId {
    ObjectId::from_bytes([0x65, 0xa5, 0x3c, 0, 0, 0, 0, 0, 0, 0, 0, n])
}

fn profile(n: u8) -> User {
    User::new(
        object_id(n),
        String::from("NL"),
        format!("https://avatars.example/{}", n),
        20 + n as i32,
        format!("u{:02}", n),
    )
}

/// `users` profiles u01.., the first `ranked` of them in the bucket `key`
/// with the scores `ranked, ranked - 1, .., 1`.
fn stores(key: &str, users: u8, ranked: u8) -> Stores {
    let profiles: Vec<User> = (1..=users).map(profile).collect();
    let entries: Vec<(String, u32)> = (1..=ranked)
        .map(|n| (object_id(n).to_hex(), (ranked - n + 1) as u32))
        .collect();
    let mut ranking = HashMap::new();
    ranking.insert(key.to_string(), entries);
    Stores {
        ranking,
        profile_count: profiles.len() as u64,
        profiles,
        cached_snapshot: None,
        cached_count: None,
        writes: 0,
        asked: Vec::new(),
    }
}

fn answer(stores: &mut Stores, action: Action) -> Event {
    match action {
        Action::ReadRanking { key, start, stop } => {
            stores.asked.push(format!("ranking {} {} {}", key, start, stop));
            let all = stores.ranking.get(&key).cloned().unwrap_or_default();
            let rows = all
                .into_iter()
                .enumerate()
                .filter(|(i, _)| start <= *i as i64 && *i as i64 <= stop)
                .map(|(_, (id, score))| RankingEntry::new(id, score))
                .collect();
            Event::Ranked(rows)
        }
        Action::ReadSnapshot => {
            stores.asked.push("read users".to_string());
            Event::SnapshotRead(stores.cached_snapshot.as_ref().map(|(s, _)| s.clone()))
        }
        Action::ReadCount => {
            stores.asked.push("read users_count".to_string());
            Event::CountRead(stores.cached_count.map(|(c, _)| c))
        }
        Action::FetchProfiles => {
            stores.asked.push("find".to_string());
            Event::Profiles(stores.profiles.clone())
        }
        Action::StoreSnapshot { snapshot, ttl_seconds } => {
            stores.asked.push("write users".to_string());
            stores.cached_snapshot = Some((snapshot, ttl_seconds));
            stores.writes += 1;
            Event::SnapshotStored
        }
        Action::CountProfiles => {
            stores.asked.push("count".to_string());
            Event::Counted(stores.profile_count)
        }
        Action::StoreCount { count, ttl_seconds } => {
            stores.asked.push("write users_count".to_string());
            stores.cached_count = Some((count, ttl_seconds));
            stores.writes += 1;
            Event::CountStored
        }
        Action::Reply(_) | Action::Fail(_) => unreachable!(),
    }
}

fn run(stores: &mut Stores, begun: (Machine, Action)) -> Action {
    let (mut machine, mut action) = begun;
    for _ in 0..16 {
        if matches!(action, Action::Reply(_) | Action::Fail(_)) {
            assert!(machine.is_closed());
            return action;
        }
        assert!(!machine.is_closed());
        let event = answer(stores, action);
        let next = machine.advance(event, 12);
        machine = next.0;
        action = next.1;
    }
    panic!("the machine did not stop");
}

fn serve(stores: &mut Stores, page: u32, clock: &CivilHour) -> Action {
    run(stores, Machine::begin(page, clock))
}

fn reply(action: Action) -> Response {
    match action {
        Action::Reply(response) => response,
        other => panic!("no reply: {:?}", other),
    }
}

fn scores(response: &Response) -> Vec<u32> {
    response.leaderboard.iter().map(|u| u.score).collect()
}

fn at(hour: u32, minute: u32) -> CivilHour {
    CivilHour::new(2024, 1, 15, hour, minute).unwrap()
}

#[test]
fn cold_cache_thirty_users_page_one() {
    let mut stores = stores("20240115-14", 30, 30);
    let response = reply(serve(&mut stores, 1, &at(14, 7)));
    assert_eq!(response.leaderboard.len(), 25);
    assert_eq!(scores(&response), (6..=30).rev().collect::<Vec<u32>>());
    assert_eq!(response.total_users, 30);
    assert_eq!(response.time_to_hour, "53 minutes");
    assert_eq!(response.source, Source::MongoDB);
    assert_eq!(response.response_time, "12ms");
    assert_eq!(response.leaderboard[0].name(), "u01");
    assert_eq!(response.leaderboard[0]._id, object_id(1));
    assert_eq!(response.leaderboard[24].name(), "u25");
    assert_eq!(stores.cached_snapshot.as_ref().unwrap().1, 3180);
    assert_eq!(stores.cached_count, Some((30, 3180)));
    assert_eq!(stores.cached_snapshot.as_ref().unwrap().0.entries().len(), 30);
    assert_eq!(
        stores.asked,
        vec![
            "ranking 20240115-14 0 24",
            "read users",
            "find",
            "write users",
            "count",
            "write users_count",
        ]
    );
}

#[test]
fn warm_cache_page_two() {
    let mut stores = stores("20240115-14", 30, 30);
    reply(serve(&mut stores, 1, &at(14, 7)));
    stores.asked.clear();
    let writes = stores.writes;
    let response = reply(serve(&mut stores, 2, &at(14, 8)));
    assert_eq!(scores(&response), vec![5, 4, 3, 2, 1]);
    assert_eq!(response.leaderboard[0].name(), "u26");
    assert_eq!(response.total_users, 30);
    assert_eq!(response.source, Source::Cache);
    assert_eq!(response.time_to_hour, "52 minutes");
    assert_eq!(stores.writes, writes);
    assert_eq!(stores.cached_snapshot.as_ref().unwrap().1, 3180);
    assert_eq!(stores.cached_count, Some((30, 3180)));
    assert_eq!(
        stores.asked,
        vec!["ranking 20240115-14 25 49", "read users", "read users_count"]
    );
}

#[test]
fn empty_bucket_warm_cache() {
    let mut stores = stores("20240115-13", 30, 30);
    reply(serve(&mut stores, 1, &at(13, 30)));
    stores.profile_count = 99;
    let response = reply(serve(&mut stores, 1, &at(14, 0)));
    assert!(response.leaderboard.is_empty());
    assert_eq!(response.total_users, 30);
    assert_eq!(response.source, Source::Cache);
    assert_eq!(response.time_to_hour, "60 minutes");
}

#[test]
fn rollover_refreshes_and_changes_bucket() {
    // 2024-01-15T14:59:00Z and 2024-01-15T15:00:00Z
    let before: i64 = 1_705_330_740;
    let after: i64 = 1_705_330_800;
    let mut stores = stores("20240115-14", 3, 3);
    stores
        .ranking
        .insert("20240115-15".to_string(), vec![(object_id(2).to_hex(), 7)]);
    let first = reply(run(&mut stores, Machine::begin_at(1, before, 0)));
    assert_eq!(first.source, Source::MongoDB);
    assert_eq!(first.time_to_hour, "1 minutes");
    assert_eq!(scores(&first), vec![3, 2, 1]);
    assert_eq!(stores.cached_count, Some((3, 60)));
    assert_eq!(stores.asked[0], "ranking 20240115-14 0 24");
    // the hour ends and the cache entries expire
    stores.cached_snapshot = None;
    stores.cached_count = None;
    stores.asked.clear();
    let second = reply(run(&mut stores, Machine::begin_at(1, after, 0)));
    assert_eq!(second.source, Source::MongoDB);
    assert_eq!(second.time_to_hour, "60 minutes");
    assert_eq!(scores(&second), vec![7]);
    assert_eq!(second.leaderboard[0].name(), "u02");
    assert_eq!(stores.asked[0], "ranking 20240115-15 0 24");
    assert_eq!(stores.cached_count, Some((3, 3600)));
    assert_eq!(stores.cached_snapshot.as_ref().unwrap().1, 3600);
}

#[test]
fn page_beyond_end() {
    let mut stores = stores("20240115-14", 10, 10);
    let response = reply(serve(&mut stores, 2, &at(14, 7)));
    assert!(response.leaderboard.is_empty());
    assert_eq!(response.total_users, 10);
    assert_eq!(response.source, Source::MongoDB);
    assert_eq!(response.time_to_hour, "53 minutes");
    assert_eq!(response.response_time, "12ms");
    assert_ne!(response.source, Source::Default);
}

#[test]
fn partial_cache_is_rebuilt() {
    let mut stores = stores("20240115-14", 4, 4);
    reply(serve(&mut stores, 1, &at(14, 7)));
    stores.cached_count = None;
    stores.profile_count = 5;
    stores.asked.clear();
    let response = reply(serve(&mut stores, 1, &at(14, 20)));
    assert_eq!(response.source, Source::MongoDB);
    assert_eq!(response.total_users, 5);
    assert_eq!(scores(&response), vec![4, 3, 2, 1]);
    assert_eq!(stores.cached_count, Some((5, 2400)));
    assert_eq!(stores.cached_snapshot.as_ref().unwrap().1, 2400);
    assert_eq!(
        stores.asked,
        vec![
            "ranking 20240115-14 0 24",
            "read users",
            "read users_count",
            "find",
            "write users",
            "count",
            "write users_count",
        ]
    );
}

#[test]
fn empty_cached_snapshot_is_rebuilt() {
    let mut stores = stores("20240115-14", 2, 2);
    stores.cached_snapshot = Some((Snapshot::new(), 100));
    stores.cached_count = Some((77, 100));
    let response = reply(serve(&mut stores, 1, &at(14, 59)));
    assert_eq!(response.source, Source::MongoDB);
    assert_eq!(response.total_users, 2);
    assert_eq!(response.time_to_hour, "1 minutes");
    assert_eq!(stores.cached_count, Some((2, 60)));
    assert_eq!(stores.writes, 2);
}

#[test]
fn full_page_exactly_when_ranking_reaches_it() {
    let mut full = stores("20240115-14", 50, 50);
    assert_eq!(reply(serve(&mut full, 2, &at(14, 7))).leaderboard.len(), 25);
    let mut short = stores("20240115-14", 50, 49);
    assert_eq!(reply(serve(&mut short, 2, &at(14, 7))).leaderboard.len(), 24);
    assert_eq!(reply(serve(&mut short, 1, &at(14, 7))).leaderboard.len(), 25);
}

#[test]
fn scores_never_rise_with_ties() {
    let mut stores = stores("20240115-14", 5, 0);
    stores.ranking.insert(
        "20240115-14".to_string(),
        vec![
            (object_id(3).to_hex(), 9),
            (object_id(1).to_hex(), 9),
            (object_id(5).to_hex(), 4),
            (object_id(2).to_hex(), 4),
            (object_id(4).to_hex(), 0),
        ],
    );
    let response = reply(serve(&mut stores, 1, &at(14, 7)));
    let got = scores(&response);
    assert_eq!(got, vec![9, 9, 4, 4, 0]);
    assert!(got.windows(2).all(|w| w[0] >= w[1]));
    let names: Vec<&str> = response.leaderboard.iter().map(|u| u.name().as_str()).collect();
    assert_eq!(names, vec!["u03", "u01", "u05", "u02", "u04"]);
}

#[test]
fn ranked_id_without_profile_is_a_fault() {
    let mut stores = stores("20240115-14", 3, 4);
    let outcome = serve(&mut stores, 1, &at(14, 7));
    assert!(matches!(outcome, Action::Fail(Fault::MissingProfile)));
    // the cache was written before the join was reported
    assert_eq!(stores.cached_count, Some((3, 3180)));
    let again = serve(&mut stores, 1, &at(14, 8));
    assert!(matches!(again, Action::Fail(Fault::MissingProfile)));
    assert_eq!(stores.writes, 2);
}

#[test]
fn populated_cache_is_trusted_over_the_profile_store() {
    let mut stores = stores("20240115-14", 3, 3);
    reply(serve(&mut stores, 1, &at(14, 7)));
    stores.profiles.push(profile(4));
    stores.profile_count = 4;
    let response = reply(serve(&mut stores, 1, &at(14, 9)));
    assert_eq!(response.source, Source::Cache);
    assert_eq!(response.total_users, 3);
}
