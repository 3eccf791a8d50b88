//! The snapshot: the mapping from identifier text to profile that a request
//! joins the ranking against.

use crate::model::{hex_lower, User, UserView};
use vstd::prelude::*;

verus! {

/// The mapping that a list of pairs stands for: each key maps to the value
/// of the last pair that holds it.
pub open spec fn index_of(pairs: Seq<(Seq<char>, UserView)>) -> Map<Seq<char>, UserView>
    decreases pairs.len(),
{
    if pairs.len() == 0 {
        Map::empty()
    } else {
        index_of(pairs.drop_last()).insert(pairs.last().0, pairs.last().1)
    }
}

/// The pairs under which profiles are filed: each under its identifier as
/// text.
pub open spec fn profile_pairs(profiles: Seq<UserView>) -> Seq<(Seq<char>, UserView)> {
    Seq::new(profiles.len(), |i: int| (hex_lower(profiles[i].id), profiles[i]))
}

/// The snapshot of a list of profiles.
pub open spec fn profile_index(profiles: Seq<UserView>) -> Map<Seq<char>, UserView> {
    index_of(profile_pairs(profiles))
}

/// Pairs after the last one that holds `key` do not matter to what `key`
/// maps to.
pub proof fn lemma_index_ignores_tail(pairs: Seq<(Seq<char>, UserView)>, key: Seq<char>, i: int)
    requires
        0 <= i <= pairs.len(),
        forall|j: int| i <= j < pairs.len() ==> pairs[j].0 != key,
    ensures
        index_of(pairs).contains_key(key) == index_of(pairs.take(i)).contains_key(key),
        index_of(pairs).contains_key(key) ==> index_of(pairs)[key] == index_of(
            pairs.take(i),
        )[key],
    decreases pairs.len() - i,
{
    if i == pairs.len() {
        assert(pairs.take(i) =~= pairs);
    } else {
        let shorter = pairs.drop_last();
        assert(shorter.take(i) =~= pairs.take(i));
        lemma_index_ignores_tail(shorter, key, i);
    }
}

/// A list of pairs that is not empty stands for a mapping that is not empty.
pub proof fn lemma_index_empty(pairs: Seq<(Seq<char>, UserView)>)
    ensures
        index_of(pairs) == Map::<Seq<char>, UserView>::empty() <==> pairs.len() == 0,
{
    if pairs.len() > 0 {
        assert(index_of(pairs).contains_key(pairs.last().0));
    }
}

/// One filed profile: the key and the profile.
#[derive(Clone, Debug)]
pub struct Entry {
    pub key: String,
    pub user: User,
}

/// The pairs that a list of entries holds, in order.
pub open spec fn entry_pairs(entries: Seq<Entry>) -> Seq<(Seq<char>, UserView)> {
    Seq::new(entries.len(), |i: int| (entries[i].key@, entries[i].user@))
}

/// A mapping from identifier text to profile, kept as the list of the
/// entries filed so far: a key maps to the profile filed under it last.
#[derive(Clone, Debug)]
pub struct Snapshot {
    entries: Vec<Entry>,
}

impl View for Snapshot {
    type V = Map<Seq<char>, UserView>;

    open spec fn view(&self) -> Map<Seq<char>, UserView> {
        index_of(self.pairs())
    }
}

impl Snapshot {
    /// The pairs filed so far, in the order of filing.
    pub closed spec fn pairs(&self) -> Seq<(Seq<char>, UserView)> {
        entry_pairs(self.entries@)
    }

    /// The snapshot that maps nothing.
    pub fn new() -> (snapshot: Snapshot)
        ensures
            snapshot@ == Map::<Seq<char>, UserView>::empty(),
            snapshot.pairs().len() == 0,
    {
        Snapshot { entries: Vec::new() }
    }

    /// Files `user` under `key`, in place of what `key` mapped to before.
    pub fn insert(&mut self, key: String, user: User)
        ensures
            final(self)@ == old(self)@.insert(key@, user@),
            final(self).pairs() == old(self).pairs().push((key@, user@)),
    {
        let ghost before = self.pairs();
        self.entries.push(Entry { key, user });
        proof {
            assert(self.pairs() =~= before.push((key@, user@)));
            assert(self.pairs().drop_last() =~= before);
        }
    }

    /// Whether the snapshot maps nothing.
    pub fn is_empty(&self) -> (empty: bool)
        ensures
            empty <==> self@ == Map::<Seq<char>, UserView>::empty(),
    {
        proof {
            lemma_index_empty(self.pairs());
        }
        self.entries.len() == 0
    }

    /// The profile that `key` maps to, if it maps to any.
    pub fn get(&self, key: &String) -> (found: Option<&User>)
        ensures
            match found {
                Some(user) => self@.contains_key(key@) && self@[key@] == user@,
                None => !self@.contains_key(key@),
            },
    {
        let mut i: usize = self.entries.len();
        while i > 0
            invariant
                i <= self.entries.len(),
                forall|j: int| i <= j < self.entries.len() ==> self.pairs()[j].0 != key@,
            decreases i,
        {
            i = i - 1;
            if self.entries[i].key == *key {
                proof {
                    lemma_index_ignores_tail(self.pairs(), key@, i + 1);
                    assert(self.pairs().take(i + 1).drop_last() =~= self.pairs().take(i as int));
                }
                return Some(&self.entries[i].user);
            }
        }
        proof {
            lemma_index_ignores_tail(self.pairs(), key@, 0);
        }
        None
    }

    /// The entries filed so far, in the order of filing. Where a key was
    /// filed more than once, its last entry is the one that counts.
    pub fn entries(&self) -> (entries: &Vec<Entry>)
        ensures
            entry_pairs(entries@) == self.pairs(),
    {
        &self.entries
    }

    /// The snapshot of the given profiles, each filed under its identifier
    /// as text.
    pub fn from_profiles(profiles: &Vec<User>) -> (snapshot: Snapshot)
        ensures
            snapshot@ == profile_index(crate::model::users_view(profiles@)),
    {
        let ghost views = crate::model::users_view(profiles@);
        let mut snapshot = Snapshot::new();
        let mut i: usize = 0;
        while i < profiles.len()
            invariant
                i <= profiles.len(),
                views == crate::model::users_view(profiles@),
                snapshot.pairs() == profile_pairs(views).take(i as int),
            decreases profiles.len() - i,
        {
            let user = &profiles[i];
            let key = user.key();
            let copy = user.with_score(user.score());
            assert(copy@ == user@);
            snapshot.insert(key, copy);
            proof {
                assert(views[i as int] == user@);
                assert(snapshot.pairs() =~= profile_pairs(views).take(i + 1));
            }
            i = i + 1;
        }
        proof {
            assert(profile_pairs(views).take(i as int) =~= profile_pairs(views));
        }
        snapshot
    }
}

} // verus!
