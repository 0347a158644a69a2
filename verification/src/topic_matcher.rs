//! Code to match MQTT topics to filters that may contain wildcards.

use vstd::prelude::*;
use vstd::string::*;

use crate::strings::str_equals;
use crate::topic_levels::{
    filter_levels_match, levels_view, match_filter_levels, split_levels, split_to_levels,
    strs_to_levels, strs_view, topic_filter_matches,
};

verus! {

/// Checks if a filter matches a given topic.
///
/// '+' in the filter matches any single level of the topic, and a final
/// '#' matches all remaining levels, including none. A topic whose first
/// level starts with '$' does not match a wildcard in the first level of
/// the filter.
pub fn topic_matches(filter: &str, topic: &str) -> (r: bool)
    ensures
        r == topic_filter_matches(filter@, topic@),
{
    let f = split_to_levels(filter);
    let t = split_to_levels(topic);
    match_filter_levels(&f, &t)
}

/// Checks if a (split) filter matches a given (split) topic.
pub fn topic_matches_iter(filter: &[&str], topic: &[&str]) -> (r: bool)
    ensures
        r == filter_levels_match(strs_view(filter@), strs_view(topic@)),
{
    let f = strs_to_levels(filter);
    let t = strs_to_levels(topic);
    match_filter_levels(&f, &t)
}

/// Some entry of the collection has the filter `key`.
pub open spec fn has_key<T>(entries: Seq<(Seq<char>, T)>, key: Seq<char>) -> bool {
    exists|i: int| 0 <= i < entries.len() && #[trigger] entries[i].0 == key
}

/// The position of the entry with filter `key`.
pub open spec fn key_index<T>(entries: Seq<(Seq<char>, T)>, key: Seq<char>) -> int {
    choose|i: int| 0 <= i < entries.len() && #[trigger] entries[i].0 == key
}

/// No two entries have the same filter.
pub open spec fn keys_distinct<T>(entries: Seq<(Seq<char>, T)>) -> bool {
    forall|i: int, j: int|
        0 <= i < entries.len() && 0 <= j < entries.len() && i != j ==> #[trigger] entries[i].0
            != #[trigger] entries[j].0
}

/// The value stored for the filter `key`, if any.
pub open spec fn lookup<T>(entries: Seq<(Seq<char>, T)>, key: Seq<char>) -> Option<T> {
    if has_key(entries, key) {
        Some(entries[key_index(entries, key)].1)
    } else {
        None
    }
}

/// The entries after inserting `value` under `key`: an existing entry with
/// that filter gets the new value in place, otherwise a new entry is added
/// at the end.
pub open spec fn insert_entry<T>(entries: Seq<(Seq<char>, T)>, key: Seq<char>, value: T) -> Seq<
    (Seq<char>, T),
> {
    if has_key(entries, key) {
        entries.update(key_index(entries, key), (key, value))
    } else {
        entries.push((key, value))
    }
}

/// The entries whose filters match the topic under the MQTT matching rule,
/// in collection order.
pub open spec fn matching_entries<T>(entries: Seq<(Seq<char>, T)>, topic: Seq<char>) -> Seq<
    (Seq<char>, T),
>
    decreases entries.len(),
{
    if entries.len() == 0 {
        Seq::empty()
    } else {
        let prev = matching_entries(entries.drop_last(), topic);
        if topic_filter_matches(entries.last().0, topic) {
            prev.push(entries.last())
        } else {
            prev
        }
    }
}

/// The view of stored items as (filter, value) pairs.
pub open spec fn items_view<T>(items: Seq<(String, T)>) -> Seq<(Seq<char>, T)> {
    items.map_values(|e: (String, T)| (e.0@, e.1))
}

/// The view of borrowed items as (filter, value) pairs.
pub open spec fn item_refs_view<T>(items: Seq<&(String, T)>) -> Seq<(Seq<char>, T)> {
    items.map_values(|e: &(String, T)| (e.0@, e.1))
}

/// A collection of topic filters to arbitrary objects.
///
/// This can be used to get all the items that have a filter that matches
/// a topic. A single incoming topic could match against several items in
/// the collection. For example, the topic `data/temperature/engine` could
/// match against the filters `data/temperature/engine`,
/// `data/temperature/#` and `data/+/engine`.
///
/// An item matches when its filter matches the topic under the MQTT rule
/// that `topic_matches` applies: '+' matches one level, a final '#'
/// matches all remaining levels (also none, so `a/b/#` matches `a/b`), and
/// wildcards in the first level do not match a topic starting with '$'.
#[derive(Debug)]
pub struct TopicMatcher<T> {
    /// The filters and their values.
    items: Vec<(String, T)>,
    /// The levels of each filter, in the same order as `items`.
    levels: Vec<Vec<Vec<char>>>,
}

impl<T> TopicMatcher<T> {
    /// The (filter, value) entries of the collection, in insertion order.
    pub closed spec fn entries(&self) -> Seq<(Seq<char>, T)> {
        items_view(self.items@)
    }

    /// The collection's internal consistency: the cached levels belong to
    /// their filters, and no filter is stored twice.
    pub closed spec fn wf(&self) -> bool {
        &&& self.items@.len() == self.levels@.len()
        &&& forall|i: int|
            0 <= i < self.items@.len() ==> levels_view(#[trigger] self.levels@[i]@) == split_levels(
                self.items@[i].0@,
            )
        &&& keys_distinct(self.entries())
    }

    /// A well-formed collection stores each filter once.
    pub proof fn lemma_wf_keys_distinct(&self)
        requires
            self.wf(),
        ensures
            keys_distinct(self.entries()),
    {
    }

    /// Creates a new, empty, topic matcher collection.
    pub fn new() -> (r: Self)
        ensures
            r.wf(),
            r.entries() == Seq::<(Seq<char>, T)>::empty(),
    {
        let r = TopicMatcher { items: Vec::new(), levels: Vec::new() };
        assert(r.entries() =~= Seq::<(Seq<char>, T)>::empty());
        r
    }

    /// Determines if the collection contains no values.
    pub fn is_empty(&self) -> (r: bool)
        requires
            self.wf(),
        ensures
            r == (self.entries().len() == 0),
    {
        self.items.len() == 0
    }

    /// Clears all the entries in the collection
    pub fn clear(&mut self)
        ensures
            final(self).wf(),
            final(self).entries() == Seq::<(Seq<char>, T)>::empty(),
    {
        self.items = Vec::new();
        self.levels = Vec::new();
        assert(final(self).entries() =~= Seq::<(Seq<char>, T)>::empty());
    }

    /// Finds the position of the entry with the given filter.
    fn find(&self, filter: &str) -> (r: Option<usize>)
        requires
            self.wf(),
        ensures
            match r {
                Some(i) => has_key(self.entries(), filter@) && i == key_index(self.entries(), filter@),
                None => !has_key(self.entries(), filter@),
            },
    {
        let ghost e = self.entries();
        let mut i: usize = 0;
        while i < self.items.len()
            invariant
                self.wf(),
                e == self.entries(),
                i <= self.items@.len(),
                forall|j: int| 0 <= j < i ==> e[j].0 != filter@,
            decreases self.items.len() - i,
        {
            assert(e[i as int].0 == self.items@[i as int].0@);
            if str_equals(self.items[i].0.as_str(), filter) {
                assert(has_key(e, filter@));
                let ghost k = key_index(e, filter@);
                assert(e[k].0 == filter@);
                assert(k == i);
                return Some(i);
            }
            i = i + 1;
        }
        assert(!has_key(e, filter@));
        None
    }

    /// Inserts a new topic filter into the collection. If the filter is
    /// already present, its value is replaced.
    pub fn insert(&mut self, filter: &str, val: T)
        requires
            old(self).wf(),
        ensures
            final(self).wf(),
            final(self).entries() == insert_entry(old(self).entries(), filter@, val),
    {
        let ghost e = self.entries();
        match self.find(filter) {
            Some(i) => {
                self.items.set(i, (String::from_str(filter), val));
                assert(self.entries() =~= e.update(i as int, (filter@, val)));
                assert forall|a: int, b: int|
                    0 <= a < self.entries().len() && 0 <= b < self.entries().len() && a != b implies #[trigger] self.entries()[a].0
                    != #[trigger] self.entries()[b].0 by {
                    assert(e[a].0 != e[b].0);
                }
            },
            None => {
                let lv = split_to_levels(filter);
                self.items.push((String::from_str(filter), val));
                self.levels.push(lv);
                assert(self.entries() =~= e.push((filter@, val)));
                assert forall|a: int, b: int|
                    0 <= a < self.entries().len() && 0 <= b < self.entries().len() && a != b implies #[trigger] self.entries()[a].0
                    != #[trigger] self.entries()[b].0 by {
                    if a < e.len() && b < e.len() {
                        assert(e[a].0 != e[b].0);
                    } else if a < e.len() {
                        assert(e[a].0 != filter@);
                    } else {
                        assert(e[b].0 != filter@);
                    }
                }
            },
        }
    }

    /// Gets a reference to a value from the collection using an exact
    /// filter match.
    pub fn get(&self, topic: &str) -> (r: Option<&T>)
        requires
            self.wf(),
        ensures
            match r {
                Some(v) => lookup(self.entries(), topic@) == Some(*v),
                None => lookup(self.entries(), topic@) is None,
            },
    {
        match self.find(topic) {
            Some(i) => Some(&self.items[i].1),
            None => None,
        }
    }

    /// Gets a mutable reference to a value from the collection using an
    /// exact filter match.
    pub fn get_mut(&mut self, topic: &str) -> (r: Option<&mut T>)
        requires
            old(self).wf(),
        ensures
            match r {
                Some(v) => {
                    &&& has_key(old(self).entries(), topic@)
                    &&& lookup(old(self).entries(), topic@) == Some(*v)
                    &&& final(self).wf()
                    &&& final(self).entries() == old(self).entries().update(
                        key_index(old(self).entries(), topic@),
                        (topic@, *final(v)),
                    )
                },
                None => {
                    &&& lookup(old(self).entries(), topic@) is None
                    &&& final(self).wf()
                    &&& final(self).entries() == old(self).entries()
                },
            },
    {
        match self.find(topic) {
            Some(i) => {
                proof {
                    lemma_update_value(self.items@, i as int);
                }
                let entry = &mut self.items[i];
                Some(&mut entry.1)
            },
            None => None,
        }
    }

    /// Gets all the (filter, value) items in the collection.
    pub fn iter(&self) -> (r: Vec<&(String, T)>)
        requires
            self.wf(),
        ensures
            item_refs_view(r@) == self.entries(),
    {
        let mut res: Vec<&(String, T)> = Vec::new();
        let mut i: usize = 0;
        while i < self.items.len()
            invariant
                i <= self.items@.len(),
                item_refs_view(res@) == self.entries().take(i as int),
            decreases self.items.len() - i,
        {
            let ghost old_res = res@;
            res.push(&self.items[i]);
            assert(item_refs_view(res@) =~= item_refs_view(old_res).push(self.entries()[i as int]));
            assert(self.entries().take(i + 1) =~= self.entries().take(i as int).push(
                self.entries()[i as int],
            ));
            i = i + 1;
        }
        assert(self.entries().take(self.items@.len() as int) =~= self.entries());
        res
    }

    /// Gets all the items whose filters match the specified topic.
    pub fn matches(&self, topic: &str) -> (r: Vec<&(String, T)>)
        requires
            self.wf(),
        ensures
            item_refs_view(r@) == matching_entries(self.entries(), topic@),
    {
        let tl = split_to_levels(topic);
        let ghost tv = split_levels(topic@);
        let ghost e = self.entries();
        let mut res: Vec<&(String, T)> = Vec::new();
        let mut i: usize = 0;
        assert(e.take(0) =~= Seq::<(Seq<char>, T)>::empty());
        while i < self.items.len()
            invariant
                self.wf(),
                e == self.entries(),
                levels_view(tl@) == tv,
                tv == split_levels(topic@),
                i <= self.items@.len(),
                item_refs_view(res@) == matching_entries(e.take(i as int), topic@),
            decreases self.items.len() - i,
        {
            let ghost old_res = res@;
            assert(e.take(i + 1).drop_last() =~= e.take(i as int));
            assert(e.take(i + 1).last() == e[i as int]);
            assert(levels_view(self.levels@[i as int]@) == split_levels(e[i as int].0));
            let hit = match_filter_levels(&self.levels[i], &tl);
            assert(hit == topic_filter_matches(e[i as int].0, topic@));
            if hit {
                res.push(&self.items[i]);
                assert(item_refs_view(res@) =~= item_refs_view(old_res).push(e[i as int]));
            }
            i = i + 1;
        }
        assert(e.take(self.items@.len() as int) =~= e);
        res
    }

    /// Determines if the topic matches any of the filters in the collection.
    pub fn has_match(&self, topic: &str) -> (r: bool)
        requires
            self.wf(),
        ensures
            r == (matching_entries(self.entries(), topic@).len() > 0),
            r == (exists|i: int|
                0 <= i < self.entries().len() && topic_filter_matches(
                    #[trigger] self.entries()[i].0,
                    topic@,
                )),
    {
        let m = self.matches(topic);
        proof {
            lemma_matching_nonempty(self.entries(), topic@);
        }
        m.len() > 0
    }
}

impl<T> Default for TopicMatcher<T> {
    /// Create an empty TopicMatcher collection.
    fn default() -> (r: Self)
        ensures
            r.wf(),
            r.entries() == Seq::<(Seq<char>, T)>::empty(),
    {
        TopicMatcher::new()
    }
}

/// Changing the value of one item keeps its filter.
proof fn lemma_update_value<T>(items: Seq<(String, T)>, i: int)
    requires
        0 <= i < items.len(),
    ensures
        forall|x: T|
            #[trigger] items_view(items.update(i, (items[i].0, x))) == items_view(items).update(
                i,
                (items[i].0@, x),
            ),
{
    assert forall|x: T|
        #[trigger] items_view(items.update(i, (items[i].0, x))) == items_view(items).update(
            i,
            (items[i].0@, x),
        ) by {
        assert(items_view(items.update(i, (items[i].0, x))) =~= items_view(items).update(
            i,
            (items[i].0@, x),
        ));
    }
}

/// Reading a filter back after inserting it gives the inserted value, and
/// inserting leaves the values of all other filters as they were.
pub proof fn lemma_insert_then_lookup<T>(
    entries: Seq<(Seq<char>, T)>,
    key: Seq<char>,
    value: T,
    other: Seq<char>,
)
    requires
        keys_distinct(entries),
    ensures
        keys_distinct(insert_entry(entries, key, value)),
        lookup(insert_entry(entries, key, value), key) == Some(value),
        other != key ==> lookup(insert_entry(entries, key, value), other) == lookup(entries, other),
{
    let ne = insert_entry(entries, key, value);
    if has_key(entries, key) {
        let k = key_index(entries, key);
        assert(ne[k].0 == key);
        assert(has_key(ne, key));
        assert forall|a: int, b: int|
            0 <= a < ne.len() && 0 <= b < ne.len() && a != b implies #[trigger] ne[a].0 != #[trigger] ne[b].0 by {
            assert(entries[a].0 != entries[b].0);
        }
        let k2 = key_index(ne, key);
        assert(k2 == k);
        if other != key {
            if has_key(entries, other) {
                let j = key_index(entries, other);
                assert(ne[j].0 == other);
                assert(key_index(ne, other) == j);
            } else {
                if has_key(ne, other) {
                    let j = key_index(ne, other);
                    assert(entries[j].0 == other);
                }
            }
        }
    } else {
        assert(ne[entries.len() as int].0 == key);
        assert(has_key(ne, key));
        assert forall|a: int, b: int|
            0 <= a < ne.len() && 0 <= b < ne.len() && a != b implies #[trigger] ne[a].0 != #[trigger] ne[b].0 by {
            if a < entries.len() && b < entries.len() {
                assert(entries[a].0 != entries[b].0);
            } else if a < entries.len() {
                assert(entries[a].0 != key);
            } else {
                assert(entries[b].0 != key);
            }
        }
        assert(key_index(ne, key) == entries.len());
        if other != key {
            if has_key(entries, other) {
                let j = key_index(entries, other);
                assert(ne[j].0 == other);
                assert(key_index(ne, other) == j);
            } else {
                if has_key(ne, other) {
                    let j = key_index(ne, other);
                    assert(entries[j].0 == other);
                }
            }
        }
    }
}

/// Every entry the collection returns for a topic is an entry of the
/// collection whose filter matches the topic under the MQTT matching rule.
pub proof fn lemma_matches_sound<T>(entries: Seq<(Seq<char>, T)>, topic: Seq<char>)
    ensures
        forall|i: int|
            0 <= i < matching_entries(entries, topic).len() ==> {
                &&& entries.contains(#[trigger] matching_entries(entries, topic)[i])
                &&& topic_filter_matches(matching_entries(entries, topic)[i].0, topic)
            },
    decreases entries.len(),
{
    if entries.len() > 0 {
        lemma_matches_sound(entries.drop_last(), topic);
        let prev = matching_entries(entries.drop_last(), topic);
        let m = matching_entries(entries, topic);
        assert forall|i: int| 0 <= i < m.len() implies {
            &&& entries.contains(#[trigger] m[i])
            &&& topic_filter_matches(m[i].0, topic)
        } by {
            if i < prev.len() {
                assert(m[i] == prev[i]);
                let k = choose|k: int| 0 <= k < entries.drop_last().len() && entries.drop_last()[k] == prev[i];
                assert(entries[k] == m[i]);
            } else {
                assert(m[i] == entries.last());
                assert(entries[entries.len() - 1] == m[i]);
            }
        }
    }
}

/// An entry of a collection (where each filter is stored once) is
/// returned for a topic exactly when its filter matches the topic under
/// the MQTT matching rule.
pub proof fn lemma_matches_complete<T>(entries: Seq<(Seq<char>, T)>, topic: Seq<char>, i: int)
    requires
        0 <= i < entries.len(),
        keys_distinct(entries),
    ensures
        matching_entries(entries, topic).contains(entries[i]) == topic_filter_matches(entries[i].0, topic),
    decreases entries.len(),
{
    let m = matching_entries(entries, topic);
    let prev = matching_entries(entries.drop_last(), topic);
    lemma_matching_subset(entries.drop_last(), topic);
    if i < entries.len() - 1 {
        assert(keys_distinct(entries.drop_last())) by {
            assert forall|a: int, b: int|
                0 <= a < entries.drop_last().len() && 0 <= b < entries.drop_last().len() && a != b implies #[trigger] entries.drop_last()[a].0
                != #[trigger] entries.drop_last()[b].0 by {
                assert(entries[a].0 != entries[b].0);
            }
        }
        lemma_matches_complete(entries.drop_last(), topic, i);
        assert(entries.drop_last()[i] == entries[i]);
        if topic_filter_matches(entries.last().0, topic) {
            assert(m == prev.push(entries.last()));
            assert(entries.last().0 != entries[i].0);
            if prev.contains(entries[i]) {
                let k = choose|k: int| 0 <= k < prev.len() && prev[k] == entries[i];
                assert(m[k] == entries[i]);
            }
            if m.contains(entries[i]) {
                let k = choose|k: int| 0 <= k < m.len() && m[k] == entries[i];
                if k < prev.len() {
                    assert(prev[k] == entries[i]);
                } else {
                    assert(m[k] == entries.last());
                    assert(false);
                }
            }
        }
    } else {
        assert(entries[i] == entries.last());
        if topic_filter_matches(entries.last().0, topic) {
            assert(m[prev.len() as int] == entries[i]);
        } else {
            if prev.contains(entries[i]) {
                let k = choose|k: int| 0 <= k < prev.len() && prev[k] == entries[i];
                let j = choose|j: int| 0 <= j < entries.drop_last().len() && entries.drop_last()[j] == prev[k];
                assert(entries[j].0 == entries[i].0);
                assert(false);
            }
        }
    }
}

/// Every returned entry is an entry of the collection.
proof fn lemma_matching_subset<T>(entries: Seq<(Seq<char>, T)>, topic: Seq<char>)
    ensures
        forall|k: int|
            0 <= k < matching_entries(entries, topic).len() ==> exists|j: int|
                0 <= j < entries.len() && entries[j] == #[trigger] matching_entries(entries, topic)[k],
    decreases entries.len(),
{
    if entries.len() > 0 {
        lemma_matching_subset(entries.drop_last(), topic);
        let prev = matching_entries(entries.drop_last(), topic);
        let m = matching_entries(entries, topic);
        assert forall|k: int| 0 <= k < m.len() implies exists|j: int|
            0 <= j < entries.len() && entries[j] == #[trigger] m[k] by {
            if k < prev.len() {
                assert(m[k] == prev[k]);
                let j = choose|j: int| 0 <= j < entries.drop_last().len() && entries.drop_last()[j] == prev[k];
                assert(entries[j] == m[k]);
            } else {
                assert(entries[entries.len() - 1] == m[k]);
            }
        }
    }
}

/// Some entry is returned for a topic exactly when some entry's filter
/// matches the topic.
proof fn lemma_matching_nonempty<T>(entries: Seq<(Seq<char>, T)>, topic: Seq<char>)
    ensures
        (matching_entries(entries, topic).len() > 0) == (exists|i: int|
            0 <= i < entries.len() && topic_filter_matches(#[trigger] entries[i].0, topic)),
    decreases entries.len(),
{
    if entries.len() > 0 {
        lemma_matching_nonempty(entries.drop_last(), topic);
        let d = entries.drop_last();
        if exists|i: int| 0 <= i < d.len() && topic_filter_matches(#[trigger] d[i].0, topic) {
            let i = choose|i: int| 0 <= i < d.len() && topic_filter_matches(#[trigger] d[i].0, topic);
            assert(entries[i].0 == d[i].0);
        }
        if exists|i: int| 0 <= i < entries.len() && topic_filter_matches(#[trigger] entries[i].0, topic) {
            let i = choose|i: int| 0 <= i < entries.len() && topic_filter_matches(#[trigger] entries[i].0, topic);
            if i < d.len() {
                assert(d[i].0 == entries[i].0);
            }
        }
    }
}


/// The entries of a new collection after inserting each (filter, value)
/// pair of `ops` in turn.
pub open spec fn entries_after_inserts<T>(ops: Seq<(Seq<char>, T)>) -> Seq<(Seq<char>, T)>
    decreases ops.len(),
{
    if ops.len() == 0 {
        Seq::empty()
    } else {
        insert_entry(entries_after_inserts(ops.drop_last()), ops.last().0, ops.last().1)
    }
}

/// The value last given for the filter in `ops`, if it was given one.
pub open spec fn last_value<T>(ops: Seq<(Seq<char>, T)>, filter: Seq<char>) -> Option<T>
    decreases ops.len(),
{
    if ops.len() == 0 {
        None
    } else if ops.last().0 == filter {
        Some(ops.last().1)
    } else {
        last_value(ops.drop_last(), filter)
    }
}

/// After any sequence of inserts into a new collection, it holds one entry
/// per filter that was inserted, with the value last inserted for it, and
/// nothing else.
pub proof fn lemma_inserts_keep_last_values<T>(ops: Seq<(Seq<char>, T)>)
    ensures
        keys_distinct(entries_after_inserts(ops)),
        forall|f: Seq<char>| #[trigger] lookup(entries_after_inserts(ops), f) == last_value(ops, f),
        forall|i: int|
            0 <= i < entries_after_inserts(ops).len() ==> last_value(
                ops,
                (#[trigger] entries_after_inserts(ops)[i]).0,
            ) == Some(entries_after_inserts(ops)[i].1),
    decreases ops.len(),
{
    let e = entries_after_inserts(ops);
    if ops.len() == 0 {
        assert forall|f: Seq<char>| #[trigger] lookup(e, f) == last_value(ops, f) by {
            assert(!has_key(e, f));
        }
    } else {
        let d = ops.drop_last();
        let pe = entries_after_inserts(d);
        lemma_inserts_keep_last_values(d);
        let key = ops.last().0;
        let value = ops.last().1;
        lemma_insert_then_lookup(pe, key, value, key);
        assert forall|f: Seq<char>| #[trigger] lookup(e, f) == last_value(ops, f) by {
            lemma_insert_then_lookup(pe, key, value, f);
            assert(lookup(pe, f) == last_value(d, f));
        }
        assert forall|i: int| 0 <= i < e.len() implies last_value(ops, (#[trigger] e[i]).0) == Some(
            e[i].1,
        ) by {
            assert(has_key(e, e[i].0));
            let k = key_index(e, e[i].0);
            assert(e[k].0 == e[i].0);
            assert(k == i);
            assert(lookup(e, e[i].0) == Some(e[i].1));
            assert(lookup(e, e[i].0) == last_value(ops, e[i].0));
        }
    }
}

} // verus!
