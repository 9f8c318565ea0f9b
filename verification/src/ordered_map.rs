//! Maps from texts to values, kept in the order of their keys.
use vstd::prelude::*;
use crate::json::{member_of, members_stay_sorted, sorted_members, with_member};
use crate::text::{before, before_is_total, before_is_transitive, is_before, same_text};

verus! {

/// Where a key belongs among the entries, and whether it is there already: at the
/// first entry that has it or comes after it.
pub fn place_of<V>(entries: &Vec<(String, V)>, key: &str) -> (place: (usize, bool))
    ensures
        place.0 <= entries@.len(),
        forall|k: int|
            0 <= k < place.0 ==> (#[trigger] entries@[k]).0@ != key@ && !before(key@, entries@[k].0@),
        place.1 ==> place.0 < entries@.len() && entries@[place.0 as int].0@ == key@,
        !place.1 && place.0 < entries@.len() ==> entries@[place.0 as int].0@ != key@ && before(
            key@,
            entries@[place.0 as int].0@,
        ),
{
    let mut i: usize = 0;
    while i < entries.len()
        invariant
            i <= entries@.len(),
            forall|k: int|
                0 <= k < i ==> (#[trigger] entries@[k]).0@ != key@ && !before(key@, entries@[k].0@),
        decreases entries@.len() - i,
    {
        if same_text(&entries[i].0, key) {
            return (i, true);
        }
        if is_before(key, &entries[i].0) {
            return (i, false);
        }
        i += 1;
    }
    (i, false)
}

/// What putting a member at its place makes of the members.
pub proof fn with_member_at<V>(members: Seq<(Seq<char>, V)>, key: Seq<char>, value: V, place: int, there: bool)
    requires
        0 <= place <= members.len(),
        forall|k: int| 0 <= k < place ==> (#[trigger] members[k]).0 != key && !before(key, members[k].0),
        there ==> place < members.len() && members[place].0 == key,
        !there && place < members.len() ==> members[place].0 != key && before(key, members[place].0),
    ensures
        with_member(members, key, value) == (if there {
            members.update(place, (key, value))
        } else {
            members.insert(place, (key, value))
        }),
    decreases place,
{
    if place == 0 {
        if members.len() == 0 {
            assert(members.insert(0, (key, value)) =~= seq![(key, value)]);
        } else if !there {
            assert(members.insert(0, (key, value)) =~= seq![(key, value)] + members);
        }
    } else {
        let rest = members.drop_first();
        assert forall|k: int| 0 <= k < place - 1 implies (#[trigger] rest[k]).0 != key && !before(
            key,
            rest[k].0,
        ) by {
            assert(members[k + 1].0 != key);
        }
        with_member_at(rest, key, value, place - 1, there);
        assert(members[0].0 != key && !before(key, members[0].0));
        if there {
            assert(members.update(place, (key, value)) =~= seq![members[0]] + rest.update(
                place - 1,
                (key, value),
            ));
        } else {
            assert(members.insert(place, (key, value)) =~= seq![members[0]] + rest.insert(
                place - 1,
                (key, value),
            ));
        }
    }
}

/// A map from texts to values.
#[derive(Debug)]
pub struct OrderedMap<V> {
    entries: Vec<(String, V)>,
}

/// The entries with the views of their keys.
pub open spec fn keyed<V>(entries: Seq<(String, V)>) -> Seq<(Seq<char>, V)> {
    entries.map_values(|entry: (String, V)| (entry.0@, entry.1))
}

impl<V> View for OrderedMap<V> {
    type V = Seq<(Seq<char>, V)>;

    closed spec fn view(&self) -> Seq<(Seq<char>, V)> {
        keyed(self.entries@)
    }
}

impl<V> OrderedMap<V> {
    /// The keys come strictly one after the other.
    #[verifier::type_invariant]
    pub open spec fn well_formed(&self) -> bool {
        sorted_members(self@)
    }

    pub fn new() -> (map: Self)
        ensures
            map@ == Seq::<(Seq<char>, V)>::empty(),
            map.well_formed(),
    {
        let entries: Vec<(String, V)> = Vec::new();
        assert(keyed(entries@) =~= Seq::<(Seq<char>, V)>::empty());
        OrderedMap { entries }
    }

    pub fn len(&self) -> (length: usize)
        ensures
            length == self@.len(),
    {
        self.entries.len()
    }

    pub fn key_at(&self, position: usize) -> (key: &String)
        requires
            position < self@.len(),
        ensures
            key@ == self@[position as int].0,
    {
        &self.entries[position].0
    }

    pub fn value_at(&self, position: usize) -> (value: &V)
        requires
            position < self@.len(),
        ensures
            *value == self@[position as int].1,
    {
        &self.entries[position].1
    }

    /// The value under the key.
    pub fn get(&self, key: &str) -> (value: Option<&V>)
        ensures
            match value {
                Some(found) => member_of(self@, key@) == Some(*found),
                None => member_of(self@, key@) is None,
            },
    {
        let ghost all = self@;
        let mut i: usize = 0;
        assert(all.skip(0) =~= all);
        while i < self.entries.len()
            invariant
                all == self@,
                i <= all.len(),
                member_of(all.skip(i as int), key@) == member_of(all, key@),
            decreases all.len() - i,
        {
            assert(all.skip(i as int)[0] == (self.entries@[i as int].0@, self.entries@[i as int].1));
            assert(all.skip(i as int).drop_first() =~= all.skip(i + 1));
            if same_text(&self.entries[i].0, key) {
                return Some(&self.entries[i].1);
            }
            i += 1;
        }
        None
    }

    /// Puts the value under the key, in the place of one that is there already.
    pub fn insert(&mut self, key: String, value: V)
        ensures
            final(self)@ == with_member(old(self)@, key@, value),
            final(self).well_formed(),
    {
        proof {
            use_type_invariant(&*self);
        }
        let (place, there) = place_of(&self.entries, &key);
        let ghost before_entries = self.entries@;
        proof {
            assert forall|k: int| 0 <= k < place implies (#[trigger] self@[k]).0 != key@ && !before(
                key@,
                self@[k].0,
            ) by {
                assert(before_entries[k].0@ != key@);
            }
            with_member_at(self@, key@, value, place as int, there);
            members_stay_sorted(self@, key@, value);
        }
        let mut entries: Vec<(String, V)> = Vec::new();
        assert(keyed(entries@) =~= Seq::<(Seq<char>, V)>::empty());
        std::mem::swap(&mut entries, &mut self.entries);
        if there {
            entries.set(place, (key, value));
            assert(keyed(entries@) =~= keyed(before_entries).update(place as int, (key@, value)));
        } else {
            entries.insert(place, (key, value));
            assert(keyed(entries@) =~= keyed(before_entries).insert(place as int, (key@, value)));
        }
        self.entries = entries;
    }
}

impl<V: Clone> Clone for OrderedMap<V> {
    fn clone(&self) -> (copy: Self)
        ensures
            copy@.len() == self@.len(),
            forall|i: int| 0 <= i < copy@.len() ==> (#[trigger] copy@[i]).0 == self@[i].0,
    {
        proof {
            use_type_invariant(self);
        }
        let mut entries: Vec<(String, V)> = Vec::new();
        let mut i: usize = 0;
        while i < self.entries.len()
            invariant
                i <= self.entries@.len(),
                entries@.len() == i,
                forall|k: int| 0 <= k < i ==> (#[trigger] entries@[k]).0@ == self.entries@[k].0@,
            decreases self.entries@.len() - i,
        {
            let entry = &self.entries[i];
            entries.push((entry.0.clone(), entry.1.clone()));
            i += 1;
        }
        assert forall|k: int| 0 < k < keyed(entries@).len() implies before(
            keyed(entries@)[k - 1].0,
            (#[trigger] keyed(entries@)[k]).0,
        ) by {
            assert(before(self@[k - 1].0, self@[k].0));
        }
        OrderedMap { entries }
    }
}

/// The members with their values mapped.
pub open spec fn mapped<V, W>(members: Seq<(Seq<char>, V)>, image: spec_fn(V) -> W) -> Seq<(Seq<char>, W)> {
    members.map_values(|member: (Seq<char>, V)| (member.0, image(member.1)))
}

/// Mapping the values and putting a member in can be done in either order.
pub proof fn mapping_keeps_members<V, W>(
    members: Seq<(Seq<char>, V)>,
    key: Seq<char>,
    value: V,
    image: spec_fn(V) -> W,
)
    ensures
        mapped(with_member(members, key, value), image) == with_member(
            mapped(members, image),
            key,
            image(value),
        ),
    decreases members.len(),
{
    let put = with_member(members, key, value);
    if members.len() > 0 && members[0].0 != key && !before(key, members[0].0) {
        let rest = members.drop_first();
        mapping_keeps_members(rest, key, value, image);
        assert(mapped(members, image).drop_first() =~= mapped(rest, image));
        assert(mapped(put, image) =~= seq![mapped(members, image)[0]] + mapped(
            with_member(rest, key, value),
            image,
        ));
    } else {
        assert(mapped(put, image) =~= with_member(mapped(members, image), key, image(value)));
    }
}

/// A key finds among mapped values the image of what it finds among the values.
pub proof fn mapping_keeps_lookups<V, W>(members: Seq<(Seq<char>, V)>, key: Seq<char>, image: spec_fn(V) -> W)
    ensures
        member_of(mapped(members, image), key) == (match member_of(members, key) {
            Some(value) => Some(image(value)),
            None => None,
        }),
    decreases members.len(),
{
    if members.len() > 0 {
        mapping_keeps_lookups(members.drop_first(), key, image);
        assert(mapped(members, image).drop_first() =~= mapped(members.drop_first(), image));
    }
}

/// Mapping the values leaves the order of the keys as it is.
pub proof fn mapping_keeps_the_order<V, W>(members: Seq<(Seq<char>, V)>, image: spec_fn(V) -> W)
    ensures
        sorted_members(mapped(members, image)) == sorted_members(members),
{
    let images = mapped(members, image);
    if sorted_members(members) {
        assert forall|i: int| 0 < i < images.len() implies before(images[i - 1].0, (#[trigger] images[i]).0) by {
            assert(before(members[i - 1].0, members[i].0));
        }
    }
    if sorted_members(images) {
        assert forall|i: int| 0 < i < members.len() implies before(members[i - 1].0, (#[trigger] members[i]).0) by {
            assert(before(images[i - 1].0, images[i].0));
        }
    }
}

/// Among sorted members every key comes before every later one.
pub proof fn earlier_keys_come_before<V>(members: Seq<(Seq<char>, V)>, i: int, j: int)
    requires
        sorted_members(members),
        0 <= i < j < members.len(),
    ensures
        before(members[i].0, members[j].0),
    decreases j - i,
{
    assert(before(members[j - 1].0, members[j].0));
    if i + 1 < j {
        earlier_keys_come_before(members, i, j - 1);
        before_is_transitive(members[i].0, members[j - 1].0, members[j].0);
    }
}

/// What holds of all members and of a new one holds of all when it is put in.
pub proof fn a_put_member_keeps_what_holds<V>(
    members: Seq<(Seq<char>, V)>,
    key: Seq<char>,
    value: V,
    holds: spec_fn((Seq<char>, V)) -> bool,
)
    requires
        forall|i: int| 0 <= i < members.len() ==> holds(#[trigger] members[i]),
        holds((key, value)),
    ensures
        forall|i: int|
            0 <= i < with_member(members, key, value).len() ==> holds(
                #[trigger] with_member(members, key, value)[i],
            ),
    decreases members.len(),
{
    let put = with_member(members, key, value);
    if members.len() > 0 && members[0].0 != key && !before(key, members[0].0) {
        let rest = members.drop_first();
        assert forall|i: int| 0 <= i < rest.len() implies holds(#[trigger] rest[i]) by {
            assert(holds(members[i + 1]));
        }
        a_put_member_keeps_what_holds(rest, key, value, holds);
        assert forall|i: int| 0 <= i < put.len() implies holds(#[trigger] put[i]) by {
            if i == 0 {
                assert(holds(members[0]));
            } else {
                assert(holds(with_member(rest, key, value)[i - 1]));
            }
        }
    } else {
        assert forall|i: int| 0 <= i < put.len() implies holds(#[trigger] put[i]) by {
            if members.len() > 0 && members[0].0 == key {
                assert(i > 0 ==> holds(members[i]));
            } else {
                assert(i > 0 ==> holds(members[i - 1]));
            }
        }
    }
}

/// A member with a key behind all others is put at the end.
pub proof fn a_last_member_is_put_at_the_end<V>(members: Seq<(Seq<char>, V)>, key: Seq<char>, value: V)
    requires
        sorted_members(members),
        members.len() > 0 ==> before(members.last().0, key),
    ensures
        with_member(members, key, value) == members.push((key, value)),
{
    assert forall|k: int| 0 <= k < members.len() implies (#[trigger] members[k]).0 != key && !before(
        key,
        members[k].0,
    ) by {
        if k < members.len() - 1 {
            earlier_keys_come_before(members, k, members.len() - 1);
            before_is_transitive(members[k].0, members.last().0, key);
        }
        before_is_total(members[k].0, key);
    }
    with_member_at(members, key, value, members.len() as int, false);
    assert(members.insert(members.len() as int, (key, value)) =~= members.push((key, value)));
}

/// What a key finds stands under that key.
pub proof fn a_found_member_is_one<V>(members: Seq<(Seq<char>, V)>, key: Seq<char>)
    ensures
        member_of(members, key) matches Some(value) ==> exists|i: int|
            0 <= i < members.len() && #[trigger] members[i] == (key, value),
    decreases members.len(),
{
    if members.len() > 0 {
        if members[0].0 == key {
            assert(members[0] == (key, member_of(members, key)->0));
        } else {
            let rest = members.drop_first();
            a_found_member_is_one(rest, key);
            if let Some(value) = member_of(rest, key) {
                let i = choose|i: int| 0 <= i < rest.len() && #[trigger] rest[i] == (key, value);
                assert(members[i + 1] == (key, value));
            }
        }
    }
}

}
