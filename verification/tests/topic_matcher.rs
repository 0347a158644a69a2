use paho_mqtt::topic_matcher::{topic_matches, topic_matches_iter, TopicMatcher};
use std::collections::HashSet;

fn tm(filter: &str) -> TopicMatcher<()> {
    let mut tm = TopicMatcher::new();
    tm.insert(filter, ());
    tm
}

#[test]
fn test_basic_topic_matcher() {
    let mut matcher: TopicMatcher<i32> = TopicMatcher::new();
    matcher.insert("some/test/topic", 19);

    assert_eq!(matcher.get("some/test/topic"), Some(&19));
    assert_eq!(matcher.get("some/test/bubba"), None);

    matcher.insert("some/+/topic", 42);
    matcher.insert("some/test/#", 99);
    matcher.insert("some/prod/topic", 155);

    assert!(matcher.has_match("some/random/topic"));
    assert!(!matcher.has_match("some/other/thing"));

    // Test the iterator

    let mut set = HashSet::new();
    set.insert(19);
    set.insert(42);
    set.insert(99);

    let mut match_set = HashSet::new();
    for (_k, v) in matcher.matches("some/test/topic") {
        match_set.insert(*v);
    }

    assert_eq!(set, match_set);
}

#[test]
fn test_topic_matcher() {
    // Should match

    assert!(tm("foo/bar").has_match("foo/bar"));
    assert!(tm("foo/+").has_match("foo/bar"));
    assert!(tm("foo/+/baz").has_match("foo/bar/baz"));
    assert!(tm("foo/+/#").has_match("foo/bar/baz"));
    assert!(tm("A/B/+/#").has_match("A/B/B/C"));
    assert!(tm("#").has_match("foo/bar/baz"));
    assert!(tm("#").has_match("/foo/bar"));
    assert!(tm("/#").has_match("/foo/bar"));
    assert!(tm("$SYS/bar").has_match("$SYS/bar"));
    assert!(tm("foo/#").has_match("foo/$bar"));
    assert!(tm("foo/+/baz").has_match("foo/$bar/baz"));

    // Should not match

    assert!(!tm("test/6/#").has_match("test/3"));
    assert!(!tm("foo/bar").has_match("foo"));
    assert!(!tm("foo/+").has_match("foo/bar/baz"));
    assert!(!tm("foo/+/baz").has_match("foo/bar/bar"));
    assert!(!tm("foo/+/#").has_match("fo2/bar/baz"));
    assert!(!tm("/#").has_match("foo/bar"));
    assert!(!tm("#").has_match("$SYS/bar"));
    assert!(!tm("$BOB/bar").has_match("$SYS/bar"));
    assert!(!tm("+/bar").has_match("$SYS/bar"));
}

#[test]
fn test_topic_matcher_callback() {
    let mut matcher = TopicMatcher::new();

    matcher.insert("some/+/topic", Box::new(|n: u32| n * 2));

    for (_t, f) in matcher.matches("some/random/topic") {
        let n = f(2);
        assert_eq!(n, 4);
    }
}

#[test]
fn assert_that_no_wildcards_matches() {
    assert!(topic_matches("a/b/c", "a/b/c"));
    assert!(topic_matches("foo/bar", "foo/bar"));
}

#[test]
fn assert_that_plus_wildcard_matches() {
    assert!(topic_matches("a/+/c", "a/b/c"));
    assert!(topic_matches("foo/+/baz", "foo/bar/baz"));
}

#[test]
fn assert_that_leading_plus_wildcard_matches() {
    assert!(topic_matches("+/b/c", "a/b/c"));
}

#[test]
fn assert_that_trailing_plus_wildcard_matches() {
    assert!(topic_matches("a/b/+", "a/b/c"));
    assert!(topic_matches("foo/+", "foo/bar"));
}

#[test]
fn assert_that_hash_wildcard_matches_none_level() {
    assert!(topic_matches("a/b/#", "a/b"));
}

#[test]
fn assert_that_hash_wildcard_matches_single_level() {
    assert!(topic_matches("a/b/#", "a/b/c"));
}

#[test]
fn assert_that_hash_wildcard_matches_multiple_levels() {
    assert!(topic_matches("a/b/#", "a/b/c/d"));
}

#[test]
fn assert_that_single_hash_matches_all() {
    assert!(topic_matches("#", "foo/bar/baz"));
    assert!(topic_matches("#", "/foo/bar"));
    assert!(topic_matches("/#", "/foo/bar"));
}

#[test]
fn assert_that_plus_and_hash_wildcards_matches() {
    assert!(topic_matches("foo/+/#", "foo/bar/baz"));
    assert!(topic_matches("A/B/+/#", "A/B/B/C"));
}

#[test]
fn assert_that_sys_topic_matches() {
    assert!(topic_matches("$SYS/bar", "$SYS/bar"));
}

#[test]
fn assert_that_non_first_levels_with_dollar_sign_matches_hash_wildcard() {
    assert!(topic_matches("foo/#", "foo/$bar"));
}

#[test]
fn assert_that_non_first_levels_with_dollar_sign_matches_plus_wildcard() {
    assert!(topic_matches("foo/+/baz", "foo/$bar/baz"));
}

#[test]
fn assert_that_different_levels_does_not_match() {
    assert!(!topic_matches("test/6/#", "test/3"));
    assert!(!topic_matches("foo/+/baz", "foo/bar/bar"));
    assert!(!topic_matches("foo/+/#", "fo2/bar/baz"));
    assert!(!topic_matches("$BOB/bar", "$SYS/bar"));
}

#[test]
fn assert_that_longer_topics_does_not_match() {
    assert!(!topic_matches("foo/bar", "foo"));
}

#[test]
fn assert_that_plus_wildcard_does_not_match_multiple_levels() {
    assert!(!topic_matches("foo/+", "foo/bar/baz"));
}

#[test]
fn assert_that_leading_slash_with_hash_wildcard_does_not_match_normal_topic() {
    assert!(!topic_matches("/#", "foo/bar"));
}

#[test]
fn assert_that_hash_wildcard_does_not_match_an_internal_topic() {
    assert!(!topic_matches("#", "$SYS/bar"));
}

#[test]
fn assert_that_plus_wildcard_does_not_match_an_internal_topic() {
    assert!(!topic_matches("+/bar", "$SYS/bar"));
}

// ----- Further cases -----

#[test]
fn matcher_insert_replaces_value_and_reads_back() {
    let mut matcher: TopicMatcher<i32> = TopicMatcher::new();
    assert!(matcher.is_empty());
    matcher.insert("a/+", 1);
    matcher.insert("a/+", 2);
    assert_eq!(matcher.get("a/+"), Some(&2));
    assert_eq!(matcher.iter().len(), 1);
    if let Some(v) = matcher.get_mut("a/+") {
        *v = 5;
    }
    assert_eq!(matcher.get("a/+"), Some(&5));
    matcher.clear();
    assert!(matcher.is_empty());
}

#[test]
fn matcher_finds_match_after_unvalued_branch() {
    // Both filters match "a/b": the documented behaviour is to report all
    // matching filters.
    let mut matcher: TopicMatcher<i32> = TopicMatcher::new();
    matcher.insert("a/+/c", 1);
    matcher.insert("a/b", 2);
    assert!(matcher.has_match("a/b"));
    let found: Vec<i32> = matcher.matches("a/b").into_iter().map(|(_, v)| *v).collect();
    assert_eq!(found, vec![2]);
}

#[test]
fn matches_by_levels() {
    assert!(topic_matches_iter(&["a", "+", "#"], &["a", "b", "c", "d"]));
    assert!(!topic_matches_iter(&["+"], &["$SYS"]));
    assert!(topic_matches_iter(&["a", "#"], &["a"]));
}

#[test]
fn matcher_hash_matches_parent_level() {
    let mut matcher: TopicMatcher<i32> = TopicMatcher::new();
    matcher.insert("a/b/#", 1);
    matcher.insert("a/+", 2);
    matcher.insert("c/d", 3);
    assert!(matcher.has_match("a/b"));
    let found: Vec<i32> = matcher.matches("a/b").iter().map(|e| e.1).collect();
    assert_eq!(found, vec![1, 2]);
    let found: Vec<i32> = matcher.matches("a/b/c/d").iter().map(|e| e.1).collect();
    assert_eq!(found, vec![1]);
    assert!(!matcher.has_match("c"));
    assert!(tm("#").has_match("a"));
}

#[test]
fn matcher_keeps_last_value_per_filter() {
    let mut matcher: TopicMatcher<i32> = TopicMatcher::new();
    matcher.insert("a/+", 1);
    matcher.insert("b/#", 2);
    matcher.insert("a/+", 3);
    matcher.insert("c", 4);
    matcher.insert("b/#", 5);
    let mut items: Vec<(String, i32)> = matcher.iter().iter().map(|e| (e.0.clone(), e.1)).collect();
    items.sort();
    assert_eq!(
        items,
        vec![("a/+".to_string(), 3), ("b/#".to_string(), 5), ("c".to_string(), 4)]
    );
}
