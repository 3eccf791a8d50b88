//! Profiles and their identifiers.

use vstd::prelude::*;

verus! {

/// The character of the hexadecimal digit `d`, in lower case.
pub open spec fn hex_char(d: int) -> char {
    if d == 0 {
        '0'
    } else if d == 1 {
        '1'
    } else if d == 2 {
        '2'
    } else if d == 3 {
        '3'
    } else if d == 4 {
        '4'
    } else if d == 5 {
        '5'
    } else if d == 6 {
        '6'
    } else if d == 7 {
        '7'
    } else if d == 8 {
        '8'
    } else if d == 9 {
        '9'
    } else if d == 10 {
        'a'
    } else if d == 11 {
        'b'
    } else if d == 12 {
        'c'
    } else if d == 13 {
        'd'
    } else if d == 14 {
        'e'
    } else {
        'f'
    }
}

/// Lower-case hexadecimal text of a byte string: two characters for each
/// byte, the high half first.
pub open spec fn hex_lower(bytes: Seq<u8>) -> Seq<char> {
    Seq::new(
        2 * bytes.len(),
        |i: int|
            if i % 2 == 0 {
                hex_char(bytes[i / 2] as int / 16)
            } else {
                hex_char(bytes[i / 2] as int % 16)
            },
    )
}

/// A document identifier: twelve opaque bytes.
#[derive(Clone, Copy, Debug, PartialEq, Eq, Hash)]
pub struct ObjectId {
    bytes: [u8; 12],
}

impl View for ObjectId {
    type V = Seq<u8>;

    open spec fn view(&self) -> Seq<u8> {
        self.spec_bytes()@
    }
}

/// `bson::oid::ObjectId::to_hex` on the identifier made by
/// `bson::oid::ObjectId::from_bytes`: the contract claims that the text is
/// the lower-case hexadecimal of the twelve bytes, in order. Believed, not
/// proved.
#[verifier::external_body]
fn bson_object_id_hex(bytes: [u8; 12]) -> (text: String)
    ensures
        text@ == hex_lower(bytes@),
{
    bson::oid::ObjectId::from_bytes(bytes).to_hex()
}

impl ObjectId {
    /// The twelve bytes, for use in contracts.
    pub closed spec fn spec_bytes(&self) -> [u8; 12] {
        self.bytes
    }

    /// The identifier with the given bytes.
    pub fn from_bytes(bytes: [u8; 12]) -> (id: ObjectId)
        ensures
            id@ == bytes@,
            id.spec_bytes() == bytes,
    {
        ObjectId { bytes }
    }

    /// The twelve bytes.
    pub fn bytes(&self) -> (bytes: [u8; 12])
        ensures
            bytes@ == self@,
            bytes == self.spec_bytes(),
    {
        self.bytes
    }

    /// The identifier as text: twenty-four lower-case hexadecimal characters.
    pub fn to_hex(&self) -> (text: String)
        ensures
            text@ == hex_lower(self@),
            text@.len() == 24,
    {
        bson_object_id_hex(self.bytes)
    }
}

/// What a profile is, as mathematics.
pub struct UserView {
    pub id: Seq<u8>,
    pub country: Seq<char>,
    pub avatar: Seq<char>,
    pub age: i32,
    pub name: Seq<char>,
    pub score: u32,
}

/// A user profile. The score is no part of the stored profile: it is filled
/// in for each request from the ranking.
#[derive(Clone, Debug)]
pub struct User {
    pub _id: ObjectId,
    country: String,
    avatar: String,
    age: i32,
    name: String,
    pub score: u32,
}

impl View for User {
    type V = UserView;

    closed spec fn view(&self) -> UserView {
        UserView {
            id: self._id@,
            country: self.country@,
            avatar: self.avatar@,
            age: self.age,
            name: self.name@,
            score: self.score,
        }
    }
}

impl User {
    /// A profile as the profile store holds it: its score is zero.
    pub fn new(
        id: ObjectId,
        country: String,
        avatar: String,
        age: i32,
        name: String,
    ) -> (user: User)
        ensures
            user@ == (UserView {
                id: id@,
                country: country@,
                avatar: avatar@,
                age: age,
                name: name@,
                score: 0,
            }),
    {
        User { _id: id, country, avatar, age, name, score: 0 }
    }

    /// A copy of the profile that carries the given score.
    pub fn with_score(&self, score: u32) -> (user: User)
        ensures
            user@ == (UserView { score: score, ..self@ }),
    {
        User {
            _id: self._id,
            country: self.country.clone(),
            avatar: self.avatar.clone(),
            age: self.age,
            name: self.name.clone(),
            score,
        }
    }

    /// The key under which a snapshot files this profile: its identifier as
    /// text.
    pub fn key(&self) -> (key: String)
        ensures
            key@ == hex_lower(self@.id),
    {
        self._id.to_hex()
    }

    /// The identifier.
    pub fn id(&self) -> (id: ObjectId)
        ensures
            id@ == self@.id,
    {
        self._id
    }

    /// The country.
    pub fn country(&self) -> (country: &String)
        ensures
            country@ == self@.country,
    {
        &self.country
    }

    /// The avatar.
    pub fn avatar(&self) -> (avatar: &String)
        ensures
            avatar@ == self@.avatar,
    {
        &self.avatar
    }

    /// The age.
    pub fn age(&self) -> (age: i32)
        ensures
            age == self@.age,
    {
        self.age
    }

    /// The name.
    pub fn name(&self) -> (name: &String)
        ensures
            name@ == self@.name,
    {
        &self.name
    }

    /// The score.
    pub fn score(&self) -> (score: u32)
        ensures
            score == self@.score,
    {
        self.score
    }
}

/// The views of a sequence of profiles, in order.
pub open spec fn users_view(users: Seq<User>) -> Seq<UserView> {
    Seq::new(users.len(), |i: int| users[i]@)
}

} // verus!
