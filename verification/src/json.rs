//! JSON documents as plain trees, and their mathematical values.

use vstd::prelude::*;

verus! {

/// A JSON number, kept as it was read.
#[derive(Debug, PartialEq, Eq)]
pub enum Number {
    /// A non-negative integer.
    PosInt(u64),
    /// A negative integer.
    NegInt(i64),
    /// Any other number, by its decimal text.
    Float(String),
}

/// The mathematical value of a [`Number`].
pub enum NumberModel {
    PosInt(u64),
    NegInt(i64),
    Float(Seq<char>),
}

impl NumberModel {
    /// A `NegInt` holds a negative integer; the non-negative ones are `PosInt`.
    pub open spec fn well_formed(self) -> bool {
        self matches NumberModel::NegInt(i) ==> i < 0
    }

    /// The same number in the one form that is well formed.
    pub open spec fn normalized(self) -> NumberModel {
        match self {
            NumberModel::NegInt(i) if i >= 0 => NumberModel::PosInt(i as u64),
            _ => self,
        }
    }
}

impl View for Number {
    type V = NumberModel;

    open spec fn view(&self) -> NumberModel {
        match self {
            Number::PosInt(u) => NumberModel::PosInt(*u),
            Number::NegInt(i) => NumberModel::NegInt(*i),
            Number::Float(text) => NumberModel::Float(text@),
        }
    }
}

impl Clone for Number {
    fn clone(&self) -> (copy: Number)
        ensures
            copy@ == self@,
    {
        match self {
            Number::PosInt(u) => Number::PosInt(*u),
            Number::NegInt(i) => Number::NegInt(*i),
            Number::Float(text) => Number::Float(text.clone()),
        }
    }
}

impl Number {
    /// The number with a non-negative `NegInt` turned into the `PosInt` it
    /// stands for.
    pub fn normalized(&self) -> (n: Number)
        ensures
            n@ == self@.normalized(),
            n@.well_formed(),
    {
        match self {
            Number::PosInt(u) => Number::PosInt(*u),
            Number::NegInt(i) => {
                if *i >= 0 {
                    Number::PosInt(*i as u64)
                } else {
                    Number::NegInt(*i)
                }
            },
            Number::Float(text) => Number::Float(text.clone()),
        }
    }
}

/// A JSON document. An object keeps its members in the order in which
/// they were written.
#[derive(Debug, PartialEq, Eq)]
pub enum Json {
    Null,
    Bool(bool),
    Number(Number),
    String(String),
    Array(Vec<Json>),
    Object(Vec<(String, Json)>),
}

/// The members of an object: names and values, in order.
pub type Members = Seq<(Seq<char>, JsonModel)>;

/// The mathematical value of a [`Json`] document.
pub enum JsonModel {
    Null,
    Bool(bool),
    Number(NumberModel),
    String(Seq<char>),
    Array(Seq<JsonModel>),
    Object(Members),
}

/// The first place at which `key` names a member, if it names one.
pub open spec fn position(members: Members, key: Seq<char>) -> Option<int>
    decreases members.len(),
{
    if members.len() == 0 {
        None
    } else if members[0].0 == key {
        Some(0)
    } else {
        match position(members.drop_first(), key) {
            Some(i) => Some(i + 1),
            None => None,
        }
    }
}

/// The value of the first member that `key` names, if it names one.
pub open spec fn lookup(members: Members, key: Seq<char>) -> Option<JsonModel> {
    match position(members, key) {
        Some(i) => Some(members[i].1),
        None => None,
    }
}

/// No two members have the same name.
pub open spec fn distinct_keys(members: Members) -> bool {
    forall|i: int, j: int|
        0 <= i < j < members.len() ==> (#[trigger] members[i]).0 != (#[trigger] members[j]).0
}

impl JsonModel {
    /// Every object in the document names each member once, and every
    /// number is in its one form.
    pub open spec fn well_formed(self) -> bool
        decreases self,
    {
        match self {
            JsonModel::Number(n) => n.well_formed(),
            JsonModel::Array(items) => forall|i: int|
                0 <= i < items.len() ==> (#[trigger] items[i]).well_formed(),
            JsonModel::Object(members) => {
                &&& distinct_keys(members)
                &&& forall|i: int|
                    0 <= i < members.len() ==> (#[trigger] members[i]).1.well_formed()
            },
            _ => true,
        }
    }
}

/// The value of a document.
pub open spec fn json_model(j: Json) -> JsonModel
    decreases j, 0nat,
{
    match j {
        Json::Null => JsonModel::Null,
        Json::Bool(b) => JsonModel::Bool(b),
        Json::Number(n) => JsonModel::Number(n@),
        Json::String(s) => JsonModel::String(s@),
        Json::Array(items) => JsonModel::Array(items_model(items@, items@.len())),
        Json::Object(members) => JsonModel::Object(members_model(members@, members@.len())),
    }
}

/// The values of the first `n` of `items`.
pub open spec fn items_model(items: Seq<Json>, n: nat) -> Seq<JsonModel>
    decreases items, n,
{
    if n == 0 || n > items.len() {
        Seq::empty()
    } else {
        items_model(items, (n - 1) as nat).push(json_model(items[n - 1]))
    }
}

/// The first `n` of `members`, each by its name and its value.
pub open spec fn members_model(members: Seq<(String, Json)>, n: nat) -> Members
    decreases members, n,
{
    if n == 0 || n > members.len() {
        Seq::empty()
    } else {
        members_model(members, (n - 1) as nat).push(
            (members[n - 1].0@, json_model(members[n - 1].1)),
        )
    }
}

/// The items of an array, each by its value.
pub open spec fn items_view(items: Seq<Json>) -> Seq<JsonModel> {
    items_model(items, items.len())
}

/// The members of an object, each by its name and its value.
pub open spec fn members_view(members: Seq<(String, Json)>) -> Members {
    members_model(members, members.len())
}

impl View for Json {
    type V = JsonModel;

    open spec fn view(&self) -> JsonModel {
        json_model(*self)
    }
}

/// `items_model` goes item by item.
pub proof fn lemma_items_model(items: Seq<Json>, n: nat)
    requires
        n <= items.len(),
    ensures
        items_model(items, n).len() == n,
        forall|i: int| 0 <= i < n ==> (#[trigger] items_model(items, n)[i]) == items[i]@,
    decreases n,
{
    if n > 0 {
        lemma_items_model(items, (n - 1) as nat);
    }
}

/// `members_model` goes member by member.
pub proof fn lemma_members_model(members: Seq<(String, Json)>, n: nat)
    requires
        n <= members.len(),
    ensures
        members_model(members, n).len() == n,
        forall|i: int|
            0 <= i < n ==> (#[trigger] members_model(members, n)[i]) == (
                members[i].0@,
                members[i].1@,
            ),
    decreases n,
{
    if n > 0 {
        lemma_members_model(members, (n - 1) as nat);
    }
}

/// An array's value has the array's length, and at each place the value
/// of the item there.
pub proof fn lemma_items_view(items: Seq<Json>)
    ensures
        items_view(items).len() == items.len(),
        forall|i: int| 0 <= i < items.len() ==> (#[trigger] items_view(items)[i]) == items[i]@,
{
    lemma_items_model(items, items.len());
}

/// An object's value has as many members as the object, and at each place
/// the name and the value of the member there.
pub proof fn lemma_members_view(members: Seq<(String, Json)>)
    ensures
        members_view(members).len() == members.len(),
        forall|i: int|
            0 <= i < members.len() ==> (#[trigger] members_view(members)[i]) == (
                members[i].0@,
                members[i].1@,
            ),
{
    lemma_members_model(members, members.len());
}

/// Where `position` finds a key, the key stands there and nowhere before.
pub proof fn lemma_position_found(members: Members, key: Seq<char>)
    ensures
        match position(members, key) {
            Some(i) => {
                &&& 0 <= i < members.len()
                &&& members[i].0 == key
                &&& forall|j: int| 0 <= j < i ==> (#[trigger] members[j]).0 != key
            },
            None => forall|j: int| 0 <= j < members.len() ==> (#[trigger] members[j]).0 != key,
        },
    decreases members.len(),
{
    if members.len() > 0 && members[0].0 != key {
        let rest = members.drop_first();
        lemma_position_found(rest, key);
        match position(rest, key) {
            Some(i) => {
                assert forall|j: int| 0 <= j < i + 1 implies (#[trigger] members[j]).0 != key by {
                    if j > 0 {
                        assert(rest[j - 1] == members[j]);
                    }
                }
            },
            None => {
                assert forall|j: int| 0 <= j < members.len() implies (#[trigger] members[j]).0
                    != key by {
                    if j > 0 {
                        assert(rest[j - 1] == members[j]);
                    }
                }
            },
        }
    }
}

/// The first place at which a key stands is its position.
pub proof fn lemma_position_first(members: Members, key: Seq<char>, i: int)
    requires
        0 <= i < members.len(),
        members[i].0 == key,
        forall|j: int| 0 <= j < i ==> (#[trigger] members[j]).0 != key,
    ensures
        position(members, key) == Some(i),
{
    lemma_position_found(members, key);
}

/// A key that names no member has no position.
pub proof fn lemma_position_absent(members: Members, key: Seq<char>)
    requires
        forall|j: int| 0 <= j < members.len() ==> (#[trigger] members[j]).0 != key,
    ensures
        position(members, key) is None,
{
    lemma_position_found(members, key);
}

/// Among distinct keys, each member stands at the position of its key.
pub proof fn lemma_position_distinct(members: Members, i: int)
    requires
        distinct_keys(members),
        0 <= i < members.len(),
    ensures
        position(members, members[i].0) == Some(i),
{
    lemma_position_first(members, members[i].0, i);
}

/// A member added at the end is found there if its name is new, and
/// changes the position of no other name.
pub proof fn lemma_position_push(members: Members, added: (Seq<char>, JsonModel), key: Seq<char>)
    ensures
        position(members.push(added), key) == match position(members, key) {
            Some(i) => Some(i),
            None => if added.0 == key {
                Some(members.len() as int)
            } else {
                None
            },
        },
{
    let longer = members.push(added);
    lemma_position_found(members, key);
    match position(members, key) {
        Some(i) => {
            lemma_position_first(longer, key, i);
        },
        None => {
            if added.0 == key {
                lemma_position_first(longer, key, members.len() as int);
            } else {
                lemma_position_absent(longer, key);
            }
        },
    }
}

/// A new value under an old name changes the position of no name.
pub proof fn lemma_position_update(members: Members, at: int, value: JsonModel, key: Seq<char>)
    requires
        0 <= at < members.len(),
    ensures
        position(members.update(at, (members[at].0, value)), key) == position(members, key),
{
    let changed = members.update(at, (members[at].0, value));
    lemma_position_found(members, key);
    match position(members, key) {
        Some(i) => {
            lemma_position_first(changed, key, i);
        },
        None => {
            lemma_position_absent(changed, key);
        },
    }
}

/// Looks a member up by name: the first place at which the name stands.
pub fn find_member(members: &Vec<(String, Json)>, key: &String) -> (found: Option<usize>)
    ensures
        match found {
            Some(i) => i < members.len() && position(members_view(members@), key@) == Some(
                i as int,
            ),
            None => position(members_view(members@), key@) is None,
        },
{
    let ghost all = members_view(members@);
    proof {
        lemma_members_view(members@);
    }
    let mut i: usize = 0;
    while i < members.len()
        invariant
            0 <= i <= members.len(),
            all == members_view(members@),
            all.len() == members@.len(),
            forall|j: int| 0 <= j < all.len() ==> (#[trigger] all[j]).0 == members@[j].0@,
            forall|j: int| 0 <= j < i ==> (#[trigger] all[j]).0 != key@,
        decreases members.len() - i,
    {
        if members[i].0 == *key {
            proof {
                lemma_position_first(all, key@, i as int);
            }
            return Some(i);
        }
        i += 1;
    }
    proof {
        lemma_position_absent(all, key@);
    }
    None
}

impl Json {
    /// Whether the document is `null`.
    pub fn is_null(&self) -> (null: bool)
        ensures
            null == (self@ is Null),
    {
        match self {
            Json::Null => true,
            _ => false,
        }
    }

    /// Whether every object in the document names each member once, and
    /// every number is in its one form.
    pub fn is_well_formed(&self) -> (ok: bool)
        ensures
            ok == self@.well_formed(),
        decreases self,
    {
        match self {
            Json::Number(Number::NegInt(i)) => *i < 0,
            Json::Array(items) => {
                proof {
                    lemma_items_view(items@);
                }
                let mut i: usize = 0;
                while i < items.len()
                    invariant
                        0 <= i <= items.len(),
                        self is Array,
                        self->Array_0 == *items,
                        self@ == JsonModel::Array(items_view(items@)),
                        items_view(items@).len() == items@.len(),
                        forall|k: int|
                            0 <= k < items@.len() ==> (#[trigger] items_view(items@)[k])
                                == items@[k]@,
                        forall|k: int|
                            0 <= k < i ==> (#[trigger] items_view(items@)[k]).well_formed(),
                    decreases items.len() - i,
                {
                    if !items[i].is_well_formed() {
                        assert(!self@->Array_0[i as int].well_formed());
                        return false;
                    }
                    i += 1;
                }
                true
            },
            Json::Object(members) => {
                let ghost all = members_view(members@);
                proof {
                    lemma_members_view(members@);
                }
                let mut i: usize = 0;
                while i < members.len()
                    invariant
                        0 <= i <= members.len(),
                        self is Object,
                        self->Object_0 == *members,
                        self@ == JsonModel::Object(all),
                        all == members_view(members@),
                        all.len() == members@.len(),
                        forall|k: int|
                            0 <= k < all.len() ==> (#[trigger] all[k]) == (
                                members@[k].0@,
                                members@[k].1@,
                            ),
                        forall|k: int| 0 <= k < i ==> (#[trigger] all[k]).1.well_formed(),
                        forall|k: int|
                            0 <= k < i ==> position(all, (#[trigger] all[k]).0) == Some(k),
                    decreases members.len() - i,
                {
                    if !members[i].1.is_well_formed() {
                        assert(!self@->Object_0[i as int].1.well_formed());
                        return false;
                    }
                    let first = find_member(members, &members[i].0);
                    proof {
                        lemma_position_found(all, all[i as int].0);
                    }
                    if first != Some(i) {
                        return false;
                    }
                    i += 1;
                }
                true
            },
            _ => true,
        }
    }
}

impl Clone for Json {
    fn clone(&self) -> (copy: Json)
        ensures
            copy@ == self@,
        decreases self,
    {
        match self {
            Json::Null => Json::Null,
            Json::Bool(b) => Json::Bool(*b),
            Json::Number(n) => Json::Number(n.clone()),
            Json::String(s) => Json::String(s.clone()),
            Json::Array(items) => {
                let mut copies: Vec<Json> = Vec::new();
                let mut i: usize = 0;
                while i < items.len()
                    invariant
                        0 <= i <= items.len(),
                        self is Array,
                        self->Array_0 == *items,
                        copies@.len() == i,
                        forall|j: int| 0 <= j < i ==> (#[trigger] copies@[j])@ == items@[j]@,
                    decreases items.len() - i,
                {
                    let item = items[i].clone();
                    copies.push(item);
                    i += 1;
                }
                let copy = Json::Array(copies);
                proof {
                    lemma_items_view(copies@);
                    lemma_items_view(items@);
                    assert(items_view(copies@) =~= items_view(items@));
                }
                copy
            },
            Json::Object(members) => {
                let mut copies: Vec<(String, Json)> = Vec::new();
                let mut i: usize = 0;
                while i < members.len()
                    invariant
                        0 <= i <= members.len(),
                        self is Object,
                        self->Object_0 == *members,
                        copies@.len() == i,
                        forall|j: int|
                            0 <= j < i ==> (#[trigger] copies@[j]).0@ == members@[j].0@
                                && copies@[j].1@ == members@[j].1@,
                    decreases members.len() - i,
                {
                    let name = members[i].0.clone();
                    let value = members[i].1.clone();
                    copies.push((name, value));
                    i += 1;
                }
                let copy = Json::Object(copies);
                proof {
                    lemma_members_view(copies@);
                    lemma_members_view(members@);
                    assert(members_view(copies@) =~= members_view(members@));
                }
                copy
            },
        }
    }
}

} // verus!
