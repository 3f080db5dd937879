//! Small maps keyed by text.
use serde_json::Value;
use vstd::prelude::*;
use vstd::string::*;

use crate::json::{json_of, value_set, Json};
use crate::text::text_eq;

verus! {

/// A map from names to documents, such as the changes to a set of settings.
///
/// Of entries with the same name the first one counts.
#[derive(Debug, Clone)]
pub struct ValueMap {
    entries: Vec<(String, Value)>,
}

/// The position of a name in a list of entries, from `i` on.
spec fn position(entries: Seq<(String, Value)>, key: Seq<char>, i: int) -> Option<int>
    decreases entries.len() - i,
{
    if i >= entries.len() {
        None
    } else if entries[i].0@ == key {
        Some(i)
    } else {
        position(entries, key, i + 1)
    }
}

/// The map that a list of entries describes.
spec fn entries_map(entries: Seq<(String, Value)>) -> Map<Seq<char>, Json> {
    Map::new(
        |key: Seq<char>| position(entries, key, 0) is Some,
        |key: Seq<char>| json_of(entries[position(entries, key, 0)->0].1),
    )
}

proof fn lemma_position(entries: Seq<(String, Value)>, key: Seq<char>, i: int)
    requires
        0 <= i,
    ensures
        match position(entries, key, i) {
            Some(p) => i <= p < entries.len() && entries[p].0@ == key && forall|q: int|
                i <= q < p ==> (#[trigger] entries[q]).0@ != key,
            None => forall|q: int| i <= q < entries.len() ==> (#[trigger] entries[q]).0@ != key,
        },
    decreases entries.len() - i,
{
    if i < entries.len() && entries[i].0@ != key {
        lemma_position(entries, key, i + 1);
    }
}

proof fn lemma_position_shift(entries: Seq<(String, Value)>, key: Seq<char>, i: int)
    requires
        entries.len() > 0,
        i >= 0,
    ensures
        position(entries, key, i + 1) == match position(entries.skip(1), key, i) {
            Some(p) => Some(p + 1),
            None => None,
        },
    decreases entries.len() - i,
{
    if i + 1 < entries.len() {
        assert(entries.skip(1)[i] == entries[i + 1]);
        lemma_position_shift(entries, key, i + 1);
    }
}

proof fn lemma_entries_map_front(entries: Seq<(String, Value)>)
    requires
        entries.len() > 0,
    ensures
        entries_map(entries) == entries_map(entries.skip(1)).insert(
            entries[0].0@,
            json_of(entries[0].1),
        ),
{
    let front = entries_map(entries.skip(1)).insert(entries[0].0@, json_of(entries[0].1));
    assert forall|key: Seq<char>| true implies {
        &&& #[trigger] entries_map(entries).dom().contains(key) <==> front.dom().contains(key)
        &&& entries_map(entries).dom().contains(key) ==> entries_map(entries)[key] == front[key]
    } by {
        lemma_position_shift(entries, key, 0);
        lemma_position(entries.skip(1), key, 0);
        if let Some(p) = position(entries.skip(1), key, 0) {
            assert(entries.skip(1)[p] == entries[p + 1]);
        }
    }
    assert(entries_map(entries) =~= front);
}

impl View for ValueMap {
    type V = Map<Seq<char>, Json>;

    closed spec fn view(&self) -> Map<Seq<char>, Json> {
        entries_map(self.entries@)
    }
}

impl ValueMap {
    pub fn new() -> (r: Self)
        ensures
            r@ == Map::<Seq<char>, Json>::empty(),
    {
        let r = Self { entries: Vec::new() };
        proof {
            assert(entries_map(r.entries@) =~= Map::<Seq<char>, Json>::empty());
        }
        r
    }

    /// Where a name stands among the entries.
    fn find(&self, key: &str) -> (r: Option<usize>)
        ensures
            match r {
                Some(i) => position(self.entries@, key@, 0) == Some(i as int) && i
                    < self.entries@.len(),
                None => position(self.entries@, key@, 0) is None,
            },
    {
        let mut i: usize = 0;
        while i < self.entries.len()
            invariant
                i <= self.entries@.len(),
                position(self.entries@, key@, 0) == position(self.entries@, key@, i as int),
            decreases self.entries@.len() - i,
        {
            if text_eq(self.entries[i].0.as_str(), key) {
                return Some(i);
            }
            i = i + 1;
        }
        None
    }

    /// The document under a name.
    pub fn get(&self, key: &str) -> (r: Option<&Value>)
        ensures
            match r {
                Some(v) => self@.dom().contains(key@) && json_of(*v) == self@[key@],
                None => !self@.dom().contains(key@),
            },
    {
        match self.find(key) {
            Some(i) => Some(&self.entries[i].1),
            None => None,
        }
    }

    /// Sets the document under a name, in place of an earlier one.
    pub fn insert(&mut self, key: String, value: Value)
        ensures
            final(self)@ == old(self)@.insert(key@, json_of(value)),
    {
        let found = self.find(key.as_str());
        let ghost before = self.entries@;
        let ghost name = key@;
        let ghost document = json_of(value);
        match found {
            Some(i) => {
                self.entries.set(i, (key, value));
            },
            None => {
                self.entries.push((key, value));
            },
        }
        proof {
            assert forall|k: Seq<char>| true implies {
                &&& #[trigger] entries_map(self.entries@).dom().contains(k) <==> entries_map(
                    before,
                ).insert(name, document).dom().contains(k)
                &&& entries_map(self.entries@).dom().contains(k) ==> entries_map(self.entries@)[k]
                    == entries_map(before).insert(name, document)[k]
            } by {
                lemma_position(before, k, 0);
                lemma_position(self.entries@, k, 0);
                lemma_position(before, name, 0);
                if found is Some && k == name {
                    assert(self.entries@[found->0 as int].0@ == k);
                }
                if found is None && k == name {
                    assert(self.entries@.last().0@ == k);
                }
                if k != name {
                    if let Some(q) = position(before, k, 0) {
                        assert(self.entries@[q] == before[q]);
                    }
                    if let Some(q) = position(self.entries@, k, 0) {
                        assert(self.entries@[q] == before[q]);
                    }
                }
            }
            assert(entries_map(self.entries@) =~= entries_map(before).insert(name, document));
        }
    }

    /// Sets every document of the map as a member of an object.
    pub fn set_members(&self, object: &mut Value)
        requires
            json_of(*old(object)) is Object,
        ensures
            json_of(*final(object)) == Json::Object(
                json_of(*old(object))->Object_0.union_prefer_right(self@),
            ),
    {
        let ghost before = json_of(*object)->Object_0;
        let ghost all = self.entries@;
        let mut n: usize = self.entries.len();
        proof {
            assert(before.union_prefer_right(entries_map(all.skip(n as int))) =~= before) by {
                assert(entries_map(all.skip(n as int)) =~= Map::empty());
            }
        }
        while n > 0
            invariant
                n <= all.len(),
                all == self.entries@,
                json_of(*object) == Json::Object(
                    before.union_prefer_right(entries_map(all.skip(n as int))),
                ),
            decreases n,
        {
            let ghost later = entries_map(all.skip(n as int));
            value_set(
                object,
                self.entries[n - 1].0.as_str(),
                self.entries[n - 1].1.clone(),
            );
            n = n - 1;
            proof {
                let key = all[n as int].0@;
                let document = json_of(all[n as int].1);
                let list = all.skip(n as int);
                assert(list[0] == all[n as int]);
                assert(all.skip(n + 1) =~= list.skip(1));
                lemma_entries_map_front(list);
                assert(entries_map(list) == later.insert(key, document));
                assert(before.union_prefer_right(later).insert(key, document)
                    =~= before.union_prefer_right(later.insert(key, document)));
            }
        }
        proof {
            assert(all.skip(0) =~= all);
        }
    }
}

/// The texts in a list.
pub open spec fn texts_of_list(s: Seq<String>) -> Seq<Seq<char>> {
    s.map_values(|t: String| t@)
}

/// A set of texts.
#[derive(Debug, Clone)]
pub struct TextSet {
    items: Vec<String>,
}

impl View for TextSet {
    type V = Set<Seq<char>>;

    closed spec fn view(&self) -> Set<Seq<char>> {
        Set::new(|t: Seq<char>| texts_of_list(self.items@).contains(t))
    }
}

impl TextSet {
    pub fn new() -> (r: Self)
        ensures
            r@ == Set::<Seq<char>>::empty(),
    {
        let r = TextSet { items: Vec::new() };
        proof {
            assert(r@ =~= Set::<Seq<char>>::empty());
        }
        r
    }

    /// Whether the set holds a text.
    pub fn contains(&self, text: &str) -> (r: bool)
        ensures
            r == self@.contains(text@),
    {
        let ghost all = texts_of_list(self.items@);
        let mut i: usize = 0;
        while i < self.items.len()
            invariant
                i <= self.items@.len(),
                all == texts_of_list(self.items@),
                forall|j: int| 0 <= j < i ==> all[j] != text@,
            decreases self.items@.len() - i,
        {
            if text_eq(self.items[i].as_str(), text) {
                assert(all[i as int] == text@);
                return true;
            }
            i = i + 1;
        }
        false
    }

    /// Adds a text.
    pub fn insert(&mut self, text: String)
        ensures
            final(self)@ == old(self)@.insert(text@),
    {
        let ghost all = texts_of_list(self.items@);
        let ghost added = text@;
        self.items.push(text);
        proof {
            let now = texts_of_list(self.items@);
            assert(now =~= all.push(added));
            assert forall|t: Seq<char>| now.contains(t) == (all.contains(t) || t == added) by {
                if all.contains(t) {
                    let j = choose|j: int| 0 <= j < all.len() && all[j] == t;
                    assert(now[j] == t);
                }
                if t == added {
                    assert(now[all.len() as int] == t);
                }
            }
            assert(self@ =~= old(self)@.insert(added));
        }
    }

    /// Removes a text. Returns whether it was there.
    pub fn remove(&mut self, text: &str) -> (r: bool)
        ensures
            r == old(self)@.contains(text@),
            final(self)@ == old(self)@.remove(text@),
    {
        let found = self.contains(text);
        let ghost all = texts_of_list(self.items@);
        let mut kept: Vec<String> = Vec::new();
        let mut i: usize = 0;
        while i < self.items.len()
            invariant
                i <= self.items@.len(),
                all == texts_of_list(self.items@),
                self.items == old(self).items,
                without(texts_of_list(kept@), all.take(i as int), text@),
            decreases self.items@.len() - i,
        {
            let ghost before = texts_of_list(kept@);
            if !text_eq(self.items[i].as_str(), text) {
                kept.push(self.items[i].clone());
            }
            proof {
                let now = texts_of_list(kept@);
                let longer = all.take(i + 1);
                assert(longer =~= all.take(i as int).push(all[i as int]));
                assert(all[i as int] != text@ ==> now =~= before.push(all[i as int]));
                assert forall|t: Seq<char>| #[trigger] now.contains(t) <==> (t != text@
                    && longer.contains(t)) by {
                    lemma_push_contains(all.take(i as int), all[i as int], t);
                    lemma_push_contains(before, all[i as int], t);
                    assert(before.contains(t) <==> (t != text@ && all.take(i as int).contains(
                        t,
                    )));
                }
                assert(without(now, all.take(i + 1), text@));
            }
            i = i + 1;
        }
        self.items = kept;
        proof {
            assert(all.take(all.len() as int) =~= all);
            assert(self@ =~= old(self)@.remove(text@));
        }
        found
    }

    /// Removes all texts.
    pub fn clear(&mut self)
        ensures
            final(self)@ == Set::<Seq<char>>::empty(),
    {
        self.items.clear();
        proof {
            assert(self@ =~= Set::<Seq<char>>::empty());
        }
    }
}

/// Whether a list holds what another holds but for one text.
spec fn without(kept: Seq<Seq<char>>, all: Seq<Seq<char>>, text: Seq<char>) -> bool {
    forall|t: Seq<char>| #[trigger] kept.contains(t) <==> (t != text && all.contains(t))
}

proof fn lemma_push_contains(s: Seq<Seq<char>>, x: Seq<char>, t: Seq<char>)
    ensures
        s.push(x).contains(t) <==> s.contains(t) || t == x,
{
    if s.contains(t) {
        let j = choose|j: int| 0 <= j < s.len() && s[j] == t;
        assert(s.push(x)[j] == t);
    }
    if t == x {
        assert(s.push(x)[s.len() as int] == t);
    }
}

} // verus!
