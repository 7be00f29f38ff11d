//! Overlaying a partial document on a complete one: the defaults with the
//! user's choices laid over them.

use vstd::prelude::*;
use crate::json::{
    distinct_keys, find_member, lemma_members_view, lemma_position_distinct,
    lemma_position_found, lemma_position_push, lemma_position_update, lookup, members_view,
    position, Json, JsonModel, Members,
};

verus! {

/// `overlay` laid over `base`. Two objects are merged member by member;
/// in every other case the overlay takes the place of the base.
pub open spec fn merge_model(base: JsonModel, overlay: JsonModel) -> JsonModel
    decreases overlay, 1nat,
{
    match (base, overlay) {
        (JsonModel::Object(under), JsonModel::Object(over)) => JsonModel::Object(
            merge_members(under, over),
        ),
        _ => overlay,
    }
}

/// The members of `over` laid over `under`, one after the other. A `null`
/// member changes nothing. A member that `under` names already is laid
/// over the value found there; any other is added at the end.
pub open spec fn merge_members(under: Members, over: Members) -> Members
    decreases over, 0nat,
{
    if over.len() == 0 {
        under
    } else {
        let done = merge_members(under, over.drop_last());
        let (key, value) = over.last();
        if value is Null {
            done
        } else {
            match position(done, key) {
                Some(i) => done.update(i, (done[i].0, merge_model(done[i].1, value))),
                None => done.push((key, value)),
            }
        }
    }
}

/// Lays `b` over `a`: where both are objects, member by member, the
/// `null` members of `b` left out; in every other case `a` becomes a copy
/// of `b`.
pub fn merge(a: &mut Json, b: &Json)
    ensures
        final(a)@ == merge_model(old(a)@, b@),
        old(a)@.well_formed() && b@.well_formed() ==> final(a)@.well_formed(),
    decreases b,
{
    proof {
        if old(a)@.well_formed() && b@.well_formed() {
            lemma_merge_well_formed(old(a)@, b@);
        }
    }
    let mut base = Json::Null;
    core::mem::swap(a, &mut base);
    match (base, b) {
        (Json::Object(mut under), Json::Object(over)) => {
            let ghost start = members_view(under@);
            let ghost laid = members_view(over@);
            proof {
                lemma_members_view(over@);
            }
            let mut i: usize = 0;
            while i < over.len()
                invariant
                    0 <= i <= over.len(),
                    b->Object_0 == *over,
                    b is Object,
                    laid == members_view(over@),
                    laid.len() == over@.len(),
                    members_view(under@) == merge_members(start, laid.take(i as int)),
                decreases over.len() - i,
            {
                let key = &over[i].0;
                let value = &over[i].1;
                proof {
                    lemma_members_view(over@);
                    lemma_members_view(under@);
                    assert(laid.take(i + 1).drop_last() =~= laid.take(i as int));
                }
                if !value.is_null() {
                    match find_member(&under, key) {
                        Some(p) => {
                            merge(&mut under[p].1, value);
                            proof {
                                lemma_members_view(under@);
                            }
                        },
                        None => {
                            let name = key.clone();
                            let copy = value.clone();
                            under.push((name, copy));
                            proof {
                                lemma_members_view(under@);
                            }
                        },
                    }
                }
                i += 1;
            }
            proof {
                assert(laid.take(i as int) =~= laid);
            }
            *a = Json::Object(under);
        },
        (_, _) => {
            *a = b.clone();
        },
    }
}

/// What a name stands for after a merge, said member by member: where the
/// overlay gives the name a value other than `null`, that value laid over
/// the base's (or alone, where the base has none); in every other case
/// what the base had.
pub open spec fn merged_lookup(under: Members, over: Members, key: Seq<char>) -> Option<
    JsonModel,
> {
    match lookup(over, key) {
        Some(choice) if !(choice is Null) => Some(
            match lookup(under, key) {
                Some(default) => merge_model(default, choice),
                None => choice,
            },
        ),
        _ => lookup(under, key),
    }
}

/// Merging keeps every member of the base at its place and under its
/// name, and adds members only at the end.
pub proof fn lemma_merge_keeps_places(under: Members, over: Members)
    ensures
        merge_members(under, over).len() >= under.len(),
        forall|i: int|
            0 <= i < under.len() ==> (#[trigger] merge_members(under, over)[i]).0 == under[i].0,
    decreases over.len(),
{
    if over.len() > 0 {
        lemma_merge_keeps_places(under, over.drop_last());
        let done = merge_members(under, over.drop_last());
        lemma_position_found(done, over.last().0);
    }
}

/// Merging is member-wise: each name stands afterwards for what
/// `merged_lookup` says, whenever the overlay names no member twice.
pub proof fn lemma_merge_lookup(under: Members, over: Members, key: Seq<char>)
    requires
        distinct_keys(over),
    ensures
        lookup(merge_members(under, over), key) == merged_lookup(under, over, key),
        position(under, key) is Some ==> position(merge_members(under, over), key) == position(
            under,
            key,
        ),
    decreases over.len(),
{
    if over.len() > 0 {
        let earlier = over.drop_last();
        let (name, value) = over.last();
        let done = merge_members(under, earlier);
        lemma_merge_lookup(under, earlier, key);
        assert(over =~= earlier.push(over.last()));
        lemma_position_push(earlier, over.last(), key);
        lemma_position_found(earlier, key);
        if !(value is Null) {
            lemma_position_found(done, name);
            lemma_position_found(done, key);
            match position(done, name) {
                Some(at) => {
                    lemma_position_update(done, at, merge_model(done[at].1, value), key);
                },
                None => {
                    lemma_position_push(done, (name, value), key);
                },
            }
        }
    }
}

/// A member of the base that the overlay does not name stays as it is.
pub proof fn lemma_merge_keeps_missing(base: JsonModel, overlay: JsonModel, key: Seq<char>)
    requires
        base is Object,
        overlay is Object,
        overlay.well_formed(),
        lookup(overlay->Object_0, key) is None,
    ensures
        merge_model(base, overlay) is Object,
        lookup(merge_model(base, overlay)->Object_0, key) == lookup(base->Object_0, key),
{
    lemma_merge_lookup(base->Object_0, overlay->Object_0, key);
}

/// A member that the overlay gives as `null` leaves what the base has
/// under that name as it is: a `null` never takes a default's place.
pub proof fn lemma_merge_ignores_null(base: JsonModel, overlay: JsonModel, key: Seq<char>)
    requires
        base is Object,
        overlay is Object,
        overlay.well_formed(),
        lookup(overlay->Object_0, key) == Some(JsonModel::Null),
    ensures
        merge_model(base, overlay) is Object,
        lookup(merge_model(base, overlay)->Object_0, key) == lookup(base->Object_0, key),
{
    lemma_merge_lookup(base->Object_0, overlay->Object_0, key);
}

/// Laying the first `n` members of an object over the object changes
/// nothing.
proof fn lemma_merge_members_same(members: Members, n: int)
    requires
        JsonModel::Object(members).well_formed(),
        0 <= n <= members.len(),
    ensures
        merge_members(members, members.take(n)) == members,
    decreases members, n,
{
    if n > 0 {
        let laid = members.take(n);
        assert(laid.drop_last() =~= members.take(n - 1));
        lemma_merge_members_same(members, n - 1);
        let (name, value) = laid.last();
        if !(value is Null) {
            lemma_position_distinct(members, n - 1);
            lemma_merge_idempotent(value);
        }
    }
}

/// Merging is idempotent: a document laid over itself is that document.
pub proof fn lemma_merge_idempotent(doc: JsonModel)
    requires
        doc.well_formed(),
    ensures
        merge_model(doc, doc) == doc,
    decreases doc, 0int,
{
    if let JsonModel::Object(members) = doc {
        lemma_merge_members_same(members, members.len() as int);
        assert(members.take(members.len() as int) =~= members);
    }
}

/// Laying well-formed members over well-formed members gives well-formed
/// members.
proof fn lemma_merge_members_well_formed(under: Members, over: Members)
    requires
        JsonModel::Object(under).well_formed(),
        forall|i: int| 0 <= i < over.len() ==> (#[trigger] over[i]).1.well_formed(),
    ensures
        JsonModel::Object(merge_members(under, over)).well_formed(),
    decreases over, 0nat,
{
    if over.len() > 0 {
        let earlier = over.drop_last();
        let (name, value) = over.last();
        lemma_merge_members_well_formed(under, earlier);
        let done = merge_members(under, earlier);
        if !(value is Null) {
            lemma_position_found(done, name);
            if let Some(at) = position(done, name) {
                lemma_merge_well_formed(done[at].1, value);
            }
        }
    }
}

/// Merging well-formed documents gives a well-formed document.
pub proof fn lemma_merge_well_formed(base: JsonModel, overlay: JsonModel)
    requires
        base.well_formed(),
        overlay.well_formed(),
    ensures
        merge_model(base, overlay).well_formed(),
    decreases overlay, 1nat,
{
    if let (JsonModel::Object(under), JsonModel::Object(over)) = (base, overlay) {
        lemma_merge_members_well_formed(under, over);
    }
}

} // verus!
