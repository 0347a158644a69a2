//! Splitting topics and filters into levels, and the wildcard rule of the
//! MQTT specification for matching filter levels against topic levels.

use vstd::prelude::*;
use vstd::string::*;

use crate::strings::{chars_equal, str_to_chars};

verus! {

/// The levels of a topic or filter: the text between '/' separators.
/// There is always at least one level; an empty string has one empty level.
pub open spec fn split_levels(s: Seq<char>) -> Seq<Seq<char>>
    decreases s.len(),
{
    if s.len() == 0 {
        seq![Seq::<char>::empty()]
    } else {
        let prev = split_levels(s.drop_last());
        if s.last() == '/' {
            prev.push(Seq::<char>::empty())
        } else {
            prev.update(prev.len() - 1, prev.last().push(s.last()))
        }
    }
}

/// Joins levels with '/' separators.
pub open spec fn join_levels(levels: Seq<Seq<char>>) -> Seq<char>
    decreases levels.len(),
{
    if levels.len() == 0 {
        Seq::<char>::empty()
    } else if levels.len() == 1 {
        levels[0]
    } else {
        join_levels(levels.drop_last()) + seq!['/'] + levels.last()
    }
}

/// The character sequences held by a vector of character vectors.
pub open spec fn levels_view(v: Seq<Vec<char>>) -> Seq<Seq<char>> {
    v.map_values(|x: Vec<char>| x@)
}

/// The character sequences held by a sequence of string slices.
pub open spec fn strs_view(v: Seq<&str>) -> Seq<Seq<char>> {
    v.map_values(|x: &str| x@)
}

/// The character sequences held by a sequence of strings.
pub open spec fn strings_view(v: Seq<String>) -> Seq<Seq<char>> {
    v.map_values(|x: String| x@)
}

/// The multi-level wildcard level, "#".
pub open spec fn is_hash_level(l: Seq<char>) -> bool {
    l == seq!['#']
}

/// The single-level wildcard level, "+".
pub open spec fn is_plus_level(l: Seq<char>) -> bool {
    l == seq!['+']
}

/// A level starting with '$', as the server's internal topics do.
pub open spec fn is_dollar_level(l: Seq<char>) -> bool {
    l.len() > 0 && l[0] == '$'
}

/// The MQTT wildcard rule on levels, without the rule for '$' topics:
/// '#' matches all remaining levels (also none), '+' matches one level,
/// any other level matches an equal level.
pub open spec fn levels_match(filter: Seq<Seq<char>>, topic: Seq<Seq<char>>) -> bool
    decreases filter.len(),
{
    if filter.len() == 0 {
        topic.len() == 0
    } else if is_hash_level(filter[0]) {
        true
    } else if topic.len() == 0 {
        false
    } else if is_plus_level(filter[0]) || filter[0] == topic[0] {
        levels_match(filter.drop_first(), topic.drop_first())
    } else {
        false
    }
}

/// The MQTT rule for matching a (split) filter against a (split) topic:
/// a topic whose first level starts with '$' does not match a wildcard in
/// the first level of the filter.
pub open spec fn filter_levels_match(filter: Seq<Seq<char>>, topic: Seq<Seq<char>>) -> bool {
    &&& !(filter.len() > 0 && (is_hash_level(filter[0]) || is_plus_level(filter[0]))
        && topic.len() > 0 && is_dollar_level(topic[0]))
    &&& levels_match(filter, topic)
}

/// The MQTT rule for matching a filter string against a topic string.
pub open spec fn topic_filter_matches(filter: Seq<char>, topic: Seq<char>) -> bool {
    filter_levels_match(split_levels(filter), split_levels(topic))
}

/// There is always at least one level.
pub proof fn lemma_split_levels_nonempty(s: Seq<char>)
    ensures
        split_levels(s).len() >= 1,
    decreases s.len(),
{
    if s.len() > 0 {
        lemma_split_levels_nonempty(s.drop_last());
    }
}

/// No level holds a '/'.
pub proof fn lemma_split_levels_no_slash(s: Seq<char>)
    ensures
        forall|i: int| 0 <= i < split_levels(s).len() ==> !(#[trigger] split_levels(s)[i]).contains('/'),
    decreases s.len(),
{
    if s.len() > 0 {
        lemma_split_levels_no_slash(s.drop_last());
        lemma_split_levels_nonempty(s.drop_last());
        let prev = split_levels(s.drop_last());
        if s.last() != '/' {
            assert forall|i: int| 0 <= i < split_levels(s).len() implies !(#[trigger] split_levels(s)[i]).contains('/') by {
                if i == prev.len() - 1 {
                    let l = prev.last().push(s.last());
                    assert(split_levels(s)[i] == l);
                    if l.contains('/') {
                        let k = choose|k: int| 0 <= k < l.len() && l[k] == '/';
                        if k < prev.last().len() {
                            assert(prev.last()[k] == '/');
                            assert(prev[prev.len() - 1].contains('/'));
                        }
                    }
                } else {
                    assert(split_levels(s)[i] == prev[i]);
                }
            }
        } else {
            assert forall|i: int| 0 <= i < split_levels(s).len() implies !(#[trigger] split_levels(s)[i]).contains('/') by {
                if i < prev.len() {
                    assert(split_levels(s)[i] == prev[i]);
                }
            }
        }
    }
}

/// Joining the levels of a string gives the string back.
pub proof fn lemma_join_split(s: Seq<char>)
    ensures
        join_levels(split_levels(s)) == s,
    decreases s.len(),
{
    if s.len() == 0 {
        assert(join_levels(split_levels(s)) =~= s);
    } else {
        let prev = split_levels(s.drop_last());
        lemma_join_split(s.drop_last());
        lemma_split_levels_nonempty(s.drop_last());
        if s.last() == '/' {
            let cur = prev.push(Seq::<char>::empty());
            assert(cur.drop_last() =~= prev);
            assert(join_levels(cur) =~= s);
        } else {
            let cur = prev.update(prev.len() - 1, prev.last().push(s.last()));
            if prev.len() == 1 {
                assert(join_levels(cur) =~= s);
            } else {
                assert(cur.drop_last() =~= prev.drop_last());
                assert(cur.last() == prev.last().push(s.last()));
                assert(join_levels(prev) == join_levels(prev.drop_last()) + seq!['/'] + prev.last());
                assert(join_levels(cur) == join_levels(prev.drop_last()) + seq!['/'] + prev.last().push(s.last()));
                assert(s =~= s.drop_last().push(s.last()));
                assert(join_levels(cur) =~= s);
            }
        }
    }
}

/// Two strings with the same levels are equal.
pub proof fn lemma_split_injective(a: Seq<char>, b: Seq<char>)
    requires
        split_levels(a) == split_levels(b),
    ensures
        a == b,
{
    lemma_join_split(a);
    lemma_join_split(b);
}

/// Splits a string into its levels as character vectors.
pub fn split_to_levels(s: &str) -> (r: Vec<Vec<char>>)
    ensures
        levels_view(r@) == split_levels(s@),
{
    let chars = str_to_chars(s);
    let mut res: Vec<Vec<char>> = Vec::new();
    let mut cur: Vec<char> = Vec::new();
    let mut i: usize = 0;
    assert(s@.take(0) =~= Seq::<char>::empty());
    while i < chars.len()
        invariant
            chars@ == s@,
            i <= chars@.len(),
            split_levels(s@.take(i as int)) == levels_view(res@).push(cur@),
        decreases chars.len() - i,
    {
        let c = chars[i];
        let ghost pre = s@.take(i as int);
        assert(s@.take(i + 1).drop_last() =~= pre);
        if c == '/' {
            let ghost old_res = res@;
            let done = cur;
            res.push(done);
            cur = Vec::new();
            assert(levels_view(res@) =~= levels_view(old_res).push(done@));
            assert(split_levels(s@.take(i + 1)) =~= levels_view(res@).push(cur@));
        } else {
            let ghost old_cur = cur@;
            cur.push(c);
            assert(levels_view(res@).push(old_cur).update(levels_view(res@).len() as int, old_cur.push(c))
                =~= levels_view(res@).push(cur@));
            assert(split_levels(s@.take(i + 1)) =~= levels_view(res@).push(cur@));
        }
        i = i + 1;
    }
    assert(s@.take(chars@.len() as int) =~= s@);
    let ghost old_res = res@;
    res.push(cur);
    assert(levels_view(res@) =~= levels_view(old_res).push(cur@));
    res
}

/// Splits a string into its levels as strings.
pub fn split_to_strings(s: &str) -> (r: Vec<String>)
    ensures
        strings_view(r@) == split_levels(s@),
{
    let chars = str_to_chars(s);
    let mut res: Vec<String> = Vec::new();
    let mut start: usize = 0;
    let mut i: usize = 0;
    assert(s@.take(0) =~= Seq::<char>::empty());
    while i < chars.len()
        invariant
            chars@ == s@,
            start <= i <= chars@.len(),
            split_levels(s@.take(i as int)) == strings_view(res@).push(s@.subrange(start as int, i as int)),
        decreases chars.len() - i,
    {
        let c = chars[i];
        let ghost pre = s@.take(i as int);
        assert(s@.take(i + 1).drop_last() =~= pre);
        if c == '/' {
            let ghost old_res = res@;
            let level = String::from_str(s.substring_char(start, i));
            res.push(level);
            assert(strings_view(res@) =~= strings_view(old_res).push(s@.subrange(start as int, i as int)));
            start = i + 1;
            assert(s@.take(i + 1).last() == '/');
            assert(s@.subrange(start as int, i + 1) =~= Seq::<char>::empty());
            assert(split_levels(s@.take(i + 1)) =~= strings_view(res@).push(s@.subrange(start as int, i + 1)));
        } else {
            assert(s@.take(i + 1).last() == c);
            let ghost prev = split_levels(pre);
            assert(prev == strings_view(res@).push(s@.subrange(start as int, i as int)));
            assert(split_levels(s@.take(i + 1)) == prev.update(prev.len() - 1, prev.last().push(c)));
            assert(prev.last() == s@.subrange(start as int, i as int));
            assert(s@.subrange(start as int, i + 1) =~= s@.subrange(start as int, i as int).push(c));
            assert(strings_view(res@).push(s@.subrange(start as int, i as int)).update(
                strings_view(res@).len() as int,
                s@.subrange(start as int, i as int).push(c),
            ) =~= strings_view(res@).push(s@.subrange(start as int, i + 1)));
            assert(split_levels(s@.take(i + 1)) =~= strings_view(res@).push(s@.subrange(start as int, i + 1)));
        }
        i = i + 1;
    }
    assert(s@.take(chars@.len() as int) =~= s@);
    let ghost old_res = res@;
    let level = String::from_str(s.substring_char(start, chars.len()));
    res.push(level);
    assert(strings_view(res@) =~= strings_view(old_res).push(s@.subrange(start as int, chars@.len() as int)));
    res
}

/// Copies a sequence of string slices into character vectors.
pub fn strs_to_levels(v: &[&str]) -> (r: Vec<Vec<char>>)
    ensures
        levels_view(r@) == strs_view(v@),
{
    let mut res: Vec<Vec<char>> = Vec::new();
    let mut i: usize = 0;
    while i < v.len()
        invariant
            i <= v@.len(),
            levels_view(res@) == strs_view(v@).take(i as int),
        decreases v.len() - i,
    {
        let ghost old_res = res@;
        res.push(str_to_chars(v[i]));
        assert(levels_view(res@) =~= levels_view(old_res).push(v@[i as int]@));
        assert(strs_view(v@).take(i + 1) =~= strs_view(v@).take(i as int).push(v@[i as int]@));
        i = i + 1;
    }
    assert(strs_view(v@).take(v@.len() as int) =~= strs_view(v@));
    res
}

/// Copies a sequence of strings into character vectors.
pub fn strings_to_levels(v: &[String]) -> (r: Vec<Vec<char>>)
    ensures
        levels_view(r@) == strings_view(v@),
{
    let mut res: Vec<Vec<char>> = Vec::new();
    let mut i: usize = 0;
    while i < v.len()
        invariant
            i <= v@.len(),
            levels_view(res@) == strings_view(v@).take(i as int),
        decreases v.len() - i,
    {
        let ghost old_res = res@;
        res.push(str_to_chars(v[i].as_str()));
        assert(levels_view(res@) =~= levels_view(old_res).push(v@[i as int]@));
        assert(strings_view(v@).take(i + 1) =~= strings_view(v@).take(i as int).push(v@[i as int]@));
        i = i + 1;
    }
    assert(strings_view(v@).take(v@.len() as int) =~= strings_view(v@));
    res
}

fn level_is(l: &Vec<char>, c: char) -> (r: bool)
    ensures
        r == (l@ == seq![c]),
{
    if l.len() == 1 && l[0] == c {
        assert(l@ =~= seq![c]);
        true
    } else {
        false
    }
}

fn level_is_dollar(l: &Vec<char>) -> (r: bool)
    ensures
        r == is_dollar_level(l@),
{
    l.len() > 0 && l[0] == '$'
}

/// Applies the MQTT matching rule to split levels.
pub fn match_filter_levels(filter: &Vec<Vec<char>>, topic: &Vec<Vec<char>>) -> (r: bool)
    ensures
        r == filter_levels_match(levels_view(filter@), levels_view(topic@)),
{
    let ghost fv = levels_view(filter@);
    let ghost tv = levels_view(topic@);
    if filter.len() > 0 && (level_is(&filter[0], '#') || level_is(&filter[0], '+')) && topic.len() > 0
        && level_is_dollar(&topic[0]) {
        return false;
    }
    let mut i: usize = 0;
    assert(fv.skip(0) =~= fv);
    assert(tv.skip(0) =~= tv);
    if filter.len() > 0 {
        assert(fv[0] == filter@[0]@);
    }
    if topic.len() > 0 {
        assert(tv[0] == topic@[0]@);
    }
    loop
        invariant
            fv == levels_view(filter@),
            tv == levels_view(topic@),
            i <= filter@.len(),
            i <= topic@.len(),
            !(fv.len() > 0 && (is_hash_level(fv[0]) || is_plus_level(fv[0])) && tv.len() > 0
                && is_dollar_level(tv[0])),
            levels_match(fv, tv) == levels_match(fv.skip(i as int), tv.skip(i as int)),
        decreases filter.len() - i,
    {
        if i == filter.len() {
            return i == topic.len();
        }
        assert(fv.skip(i as int)[0] == filter@[i as int]@);
        if level_is(&filter[i], '#') {
            return true;
        }
        if i == topic.len() {
            return false;
        }
        assert(tv.skip(i as int)[0] == topic@[i as int]@);
        if level_is(&filter[i], '+') || chars_equal(filter[i].as_slice(), topic[i].as_slice()) {
            assert(fv.skip(i as int).drop_first() =~= fv.skip(i + 1));
            assert(tv.skip(i as int).drop_first() =~= tv.skip(i + 1));
            i = i + 1;
        } else {
            return false;
        }
    }
}

} // verus!
