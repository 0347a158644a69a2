use paho_mqtt::topic::{Topic, TopicFilter};
use paho_mqtt::{PropertyCode, QoS};
use paho_mqtt::Error;

#[test]
fn test_nonwild_topic_filter() {
    const FILTER: &str = "some/topic";

    let filter = TopicFilter::new(FILTER).unwrap();
    assert!(filter.is_match(FILTER));

    let s = filter.to_string();
    assert_eq!(s, FILTER);
}

#[test]
fn test_basic_topic_filter() {
    const FILTER1: &str = "some/topic/#";

    let filter = TopicFilter::new(FILTER1).unwrap();
    assert!(filter.is_match("some/topic/thing"));

    let s = filter.to_string();
    assert_eq!(s, FILTER1);

    const FILTER2: &str = "some/+/thing";
    let filter = TopicFilter::new(FILTER2).unwrap();
    assert!(filter.is_match("some/topic/thing"));
    assert!(!filter.is_match("some/topic/plus/thing"));

    let s = filter.to_string();
    assert_eq!(s, FILTER2);

    const FILTER3: &str = "some/+";
    let filter = TopicFilter::new(FILTER3).unwrap();
    assert!(filter.is_match("some/thing"));
    assert!(!filter.is_match("some/thing/plus"));
}

#[test]
fn test_topic_filter() {
    // Should match

    assert!(TopicFilter::new_unchecked("foo/bar").matches("foo/bar"));
    assert!(TopicFilter::new_unchecked("foo/+").matches("foo/bar"));
    assert!(TopicFilter::new_unchecked("foo/+/baz").matches("foo/bar/baz"));
    assert!(TopicFilter::new_unchecked("foo/+/#").matches("foo/bar/baz"));
    assert!(TopicFilter::new_unchecked("A/B/+/#").matches("A/B/B/C"));
    assert!(TopicFilter::new_unchecked("#").matches("foo/bar/baz"));
    assert!(TopicFilter::new_unchecked("#").matches("/foo/bar"));
    assert!(TopicFilter::new_unchecked("/#").matches("/foo/bar"));
    assert!(TopicFilter::new_unchecked("$SYS/bar").matches("$SYS/bar"));
    assert!(TopicFilter::new_unchecked("foo/#").matches("foo/$bar"));
    assert!(TopicFilter::new_unchecked("foo/+/baz").matches("foo/$bar/baz"));

    // Should not match

    assert!(!TopicFilter::new_unchecked("test/6/#").matches("test/3"));
    assert!(!TopicFilter::new_unchecked("foo/bar").matches("foo"));
    assert!(!TopicFilter::new_unchecked("foo/+").matches("foo/bar/baz"));
    assert!(!TopicFilter::new_unchecked("foo/+/baz").matches("foo/bar/bar"));
    assert!(!TopicFilter::new_unchecked("foo/+/#").matches("fo2/bar/baz"));
    assert!(!TopicFilter::new_unchecked("/#").matches("foo/bar"));
    assert!(!TopicFilter::new_unchecked("#").matches("$SYS/bar"));
    assert!(!TopicFilter::new_unchecked("$BOB/bar").matches("$SYS/bar"));
    assert!(!TopicFilter::new_unchecked("+/bar").matches("$SYS/bar"));
}

// ----- Further cases -----

#[test]
fn topic_filter_rejects_bad_filters() {
    assert!(matches!(TopicFilter::new(""), Err(Error::BadTopicFilter)));
    assert!(matches!(TopicFilter::new("a/#/b"), Err(Error::BadTopicFilter)));
    assert!(TopicFilter::new("a/#").is_ok());
}

#[test]
fn topic_message_without_alias_carries_topic() {
    let topic = Topic::new("data/temp", 1);
    assert_eq!(topic.alias(), None);
    let msg = topic.create_message("20.5");
    assert_eq!(msg.topic(), "data/temp");
    assert_eq!(msg.payload(), b"20.5");
    assert_eq!(msg.qos(), QoS::AtLeastOnce);
    assert!(!msg.retained());
    assert!(msg.properties().is_empty());
}

#[test]
fn topic_retained_message() {
    let topic = Topic::new_retained("data/temp", QoS::ExactlyOnce);
    let msg = topic.create_message(vec![1u8, 2, 3]);
    assert_eq!(msg.topic(), "data/temp");
    assert_eq!(msg.payload(), &[1u8, 2, 3]);
    assert_eq!(msg.qos(), QoS::ExactlyOnce);
    assert!(msg.retained());
}

#[test]
fn topic_alias_replaces_topic() {
    let mut topic = Topic::new("data/temp", 0);
    let first = topic.create_message_with_alias(3, "a");
    assert_eq!(first.topic(), "data/temp");
    assert_eq!(first.properties().get_int(PropertyCode::TopicAlias), Some(3));
    assert_eq!(topic.alias(), Some(3));

    let next = topic.create_message("b");
    assert_eq!(next.topic(), "");
    assert_eq!(next.properties().get_int(PropertyCode::TopicAlias), Some(3));

    let with_topic = topic.create_message_with_topic("c", true);
    assert_eq!(with_topic.topic(), "data/temp");
    assert_eq!(with_topic.properties().len(), 1);
}

#[test]
fn topic_remove_alias_restores_topic() {
    let mut topic = Topic::new("data/temp", 0);
    let _ = topic.create_message_with_alias(7, "a");
    topic.remove_alias();
    assert_eq!(topic.alias(), None);
    let msg = topic.create_message("b");
    assert_eq!(msg.topic(), "data/temp");
    assert!(msg.properties().is_empty());

    let zero = topic.create_message_with_alias(0, "c");
    assert_eq!(zero.topic(), "data/temp");
    assert!(zero.properties().is_empty());
    assert_eq!(topic.alias(), None);
}
