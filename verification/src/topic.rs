//! Topics: destinations that keep the parameters of repeated publishing,
//! and checked multi-level filters that can be matched against topics.

use vstd::prelude::*;
use vstd::string::*;

use crate::errors::Error;
use crate::message::{message_is, Message, MessageBuilder};
use crate::properties::{IntoBinary, Properties, PropertyCode, PropertyValueView, PropertyView};
use crate::strings::{no_nul, IntoText};
use crate::types::{qos_number, IntoQoS, QoS};
use crate::strings::{chars_contain, str_equals, str_to_chars};
use crate::topic_levels::{
    filter_levels_match, is_dollar_level, is_hash_level, is_plus_level, join_levels,
    lemma_join_split, lemma_split_levels_nonempty, levels_match, split_levels, split_to_levels,
    split_to_strings, strings_to_levels, strings_view, match_filter_levels, topic_filter_matches,
};

verus! {

/// A filter string is acceptable: it is not empty, and a '#' may only be
/// its last character.
pub open spec fn filter_is_valid(s: Seq<char>) -> bool {
    &&& s.len() > 0
    &&& forall|i: int| 0 <= i < s.len() - 1 ==> s[i] != '#'
}

/// A filter string holds a wildcard character.
pub open spec fn has_wildcard(s: Seq<char>) -> bool {
    s.contains('#') || s.contains('+')
}

/// `f` is the filter built from the string `s` with the given choice of
/// representation: its levels when `split`, the string itself otherwise.
pub open spec fn filter_holds(f: TopicFilter, s: Seq<char>, split: bool) -> bool {
    if split {
        f matches TopicFilter::Fields(fs) && strings_view(fs@) == split_levels(s)
    } else {
        f matches TopicFilter::Topic(t) && t@ == s
    }
}

/// The text of a filter: the string, or its levels joined with '/'.
pub open spec fn filter_text(f: TopicFilter) -> Seq<char> {
    match f {
        TopicFilter::Topic(t) => t@,
        TopicFilter::Fields(fs) => join_levels(strings_view(fs@)),
    }
}

/// Whether a filter matches a topic: a plain filter matches only the equal
/// topic; a split filter matches by the MQTT wildcard rule.
pub open spec fn filter_matches_topic(f: TopicFilter, topic: Seq<char>) -> bool {
    match f {
        TopicFilter::Topic(t) => t@ == topic,
        TopicFilter::Fields(fs) => filter_levels_match(strings_view(fs@), split_levels(topic)),
    }
}

/// A topic filter.
///
/// An MQTT topic filter is a multi-field string, delimited by forward
/// slashes, '/', in which fields can contain the wildcards:
///     '+' - Matches a single field
///     '#' - Matches all subsequent fields (must be last field in filter)
///
/// It can be used to match against topics.
#[derive(Debug)]
pub enum TopicFilter {
    /// If there are no wildcards, the filter is a straight topic string
    Topic(String),
    /// If there are wildcards, the filter is split by fields.
    Fields(Vec<String>),
}

impl TopicFilter {
    /// Creates a new topic filter from the string.
    /// This fails with `BadTopicFilter` if the filter is empty or has a '#'
    /// wildcard in any place other than the last character.
    pub fn new(filter: &str) -> (r: Result<TopicFilter, Error>)
        ensures
            match r {
                Ok(f) => filter_is_valid(filter@) && filter_holds(f, filter@, has_wildcard(filter@)),
                Err(e) => !filter_is_valid(filter@) && e is BadTopicFilter,
            },
    {
        let chars = str_to_chars(filter);
        let n = chars.len();
        if n == 0 {
            return Err(Error::BadTopicFilter);
        }
        let mut i: usize = 0;
        while i < n - 1
            invariant
                chars@ == filter@,
                n == chars@.len(),
                n > 0,
                i <= n - 1,
                forall|j: int| 0 <= j < i ==> filter@[j] != '#',
            decreases n - 1 - i,
        {
            if chars[i] == '#' {
                return Err(Error::BadTopicFilter);
            }
            i = i + 1;
        }
        let wild = chars_contain(chars.as_slice(), '#') || chars_contain(chars.as_slice(), '+');
        if wild {
            Ok(TopicFilter::Fields(split_to_strings(filter)))
        } else {
            Ok(TopicFilter::Topic(String::from_str(filter)))
        }
    }

    /// Creates a new topic filter from the string without checking it.
    /// The filter is split into levels if it holds a '+' or ends with '#'.
    pub fn new_unchecked(filter: &str) -> (r: TopicFilter)
        ensures
            filter_holds(
                r,
                filter@,
                filter@.contains('+') || (filter@.len() > 0 && filter@.last() == '#'),
            ),
    {
        let chars = str_to_chars(filter);
        let n = chars.len();
        if chars_contain(chars.as_slice(), '+') || (n > 0 && chars[n - 1] == '#') {
            TopicFilter::Fields(split_to_strings(filter))
        } else {
            TopicFilter::Topic(String::from_str(filter))
        }
    }

    /// Determines if the topic matches the filter.
    pub fn matches(&self, topic: &str) -> (r: bool)
        ensures
            r == filter_matches_topic(*self, topic@),
    {
        match self {
            TopicFilter::Topic(filter) => str_equals(topic, filter.as_str()),
            TopicFilter::Fields(fields) => {
                let f = strings_to_levels(fields.as_slice());
                let t = split_to_levels(topic);
                match_filter_levels(&f, &t)
            },
        }
    }

    /// Determines if the topic matches the filter.
    pub fn is_match(&self, topic: &str) -> (r: bool)
        ensures
            r == filter_matches_topic(*self, topic@),
    {
        self.matches(topic)
    }

    /// Gets the text of the filter: the original string for a plain
    /// filter, the fields joined with '/' for a split one.
    pub fn to_string(&self) -> (r: String)
        ensures
            r@ == filter_text(*self),
    {
        match self {
            TopicFilter::Topic(filter) => String::from_str(filter.as_str()),
            TopicFilter::Fields(fields) => {
                let ghost fv = strings_view(fields@);
                let mut s = String::new();
                let mut i: usize = 0;
                while i < fields.len()
                    invariant
                        fv == strings_view(fields@),
                        i <= fields@.len(),
                        s@ == join_levels(fv.take(i as int)),
                    decreases fields.len() - i,
                {
                    assert(fv.take(i + 1).drop_last() =~= fv.take(i as int));
                    assert(fv.take(i + 1).last() == fields@[i as int]@);
                    if i > 0 {
                        s.append("/");
                    }
                    s.append(fields[i].as_str());
                    proof {
                        reveal_strlit("/");
                        if i == 0 {
                            assert(fv.take(1) =~= seq![fields@[0]@]);
                            assert(s@ =~= join_levels(fv.take(1)));
                        } else {
                            assert(s@ =~= join_levels(fv.take(i + 1)));
                        }
                    }
                    i = i + 1;
                }
                assert(fv.take(fields@.len() as int) =~= fv);
                s
            },
        }
    }
}

/// A filter built from a string gives the same string back as its text.
pub proof fn lemma_filter_text_roundtrip(f: TopicFilter, s: Seq<char>, split: bool)
    requires
        filter_holds(f, s, split),
    ensures
        filter_text(f) == s,
{
    if split {
        lemma_join_split(s);
    }
}

/// Every character of every level comes from the string.
proof fn lemma_level_chars_in_string(s: Seq<char>)
    ensures
        forall|i: int, k: int|
            0 <= i < split_levels(s).len() && 0 <= k < split_levels(s)[i].len() ==> s.contains(
                #[trigger] split_levels(s)[i][k],
            ),
    decreases s.len(),
{
    if s.len() > 0 {
        lemma_level_chars_in_string(s.drop_last());
        lemma_split_levels_nonempty(s.drop_last());
        let prev = split_levels(s.drop_last());
        let cur = split_levels(s);
        assert forall|i: int, k: int|
            0 <= i < cur.len() && 0 <= k < cur[i].len() implies s.contains(#[trigger] cur[i][k]) by {
            if s.last() == '/' {
                assert(cur[i] == prev[i]);
                assert(s.drop_last().contains(prev[i][k]));
                let j = choose|j: int| 0 <= j < s.drop_last().len() && s.drop_last()[j] == prev[i][k];
                assert(s[j] == cur[i][k]);
            } else if i == prev.len() - 1 && k == prev.last().len() {
                assert(cur[i][k] == s.last());
                assert(s[s.len() - 1] == cur[i][k]);
            } else {
                assert(cur[i][k] == prev[i][k]);
                assert(s.drop_last().contains(prev[i][k]));
                let j = choose|j: int| 0 <= j < s.drop_last().len() && s.drop_last()[j] == prev[i][k];
                assert(s[j] == cur[i][k]);
            }
        }
    }
}

/// Without wildcard levels, levels match only when they are equal.
proof fn lemma_plain_levels_match(filter: Seq<Seq<char>>, topic: Seq<Seq<char>>)
    requires
        forall|i: int|
            0 <= i < filter.len() ==> !is_hash_level(#[trigger] filter[i]) && !is_plus_level(
                filter[i],
            ),
    ensures
        levels_match(filter, topic) == (filter == topic),
    decreases filter.len(),
{
    if filter.len() > 0 {
        assert(!is_hash_level(filter[0]) && !is_plus_level(filter[0]));
        if topic.len() > 0 {
            assert forall|i: int| 0 <= i < filter.drop_first().len() implies !is_hash_level(
                #[trigger] filter.drop_first()[i],
            ) && !is_plus_level(filter.drop_first()[i]) by {
                assert(filter.drop_first()[i] == filter[i + 1]);
            }
            lemma_plain_levels_match(filter.drop_first(), topic.drop_first());
            if filter[0] == topic[0] && filter.drop_first() == topic.drop_first() {
                assert forall|i: int| 0 <= i < filter.len() implies filter[i] == topic[i] by {
                    if i > 0 {
                        assert(filter[i] == filter.drop_first()[i - 1]);
                        assert(topic[i] == topic.drop_first()[i - 1]);
                    }
                }
                assert(filter =~= topic);
            }
            if filter == topic {
                assert(filter.drop_first() == topic.drop_first());
            }
        }
    } else {
        if topic.len() == 0 {
            assert(filter =~= topic);
        }
    }
}

/// A filter built from a string matches a topic exactly when the MQTT
/// matching rule accepts the string for the topic.
pub proof fn lemma_filter_matches_like_topic_rule(f: TopicFilter, s: Seq<char>, topic: Seq<char>)
    requires
        filter_holds(f, s, has_wildcard(s)),
    ensures
        filter_matches_topic(f, topic) == topic_filter_matches(s, topic),
{
    if !has_wildcard(s) {
        let fl = split_levels(s);
        let tl = split_levels(topic);
        lemma_level_chars_in_string(s);
        assert forall|i: int| 0 <= i < fl.len() implies !is_hash_level(#[trigger] fl[i]) && !is_plus_level(
            fl[i],
        ) by {
            if is_hash_level(fl[i]) {
                assert(fl[i][0] == '#');
                assert(s.contains(fl[i][0]));
            }
            if is_plus_level(fl[i]) {
                assert(fl[i][0] == '+');
                assert(s.contains(fl[i][0]));
            }
        }
        lemma_plain_levels_match(fl, tl);
        lemma_split_levels_nonempty(s);
        assert(!(is_hash_level(fl[0]) || is_plus_level(fl[0])));
        if fl == tl {
            lemma_join_split(s);
            lemma_join_split(topic);
        }
    }
}


/// What a topic destination holds.
pub struct TopicView {
    /// The topic on which messages are published.
    pub topic: Seq<char>,
    /// The quality of service of the messages.
    pub qos: QoS,
    /// Whether the messages are to be retained by the broker.
    pub retained: bool,
    /// The topic alias; zero when none is in use.
    pub alias: u16,
}

/// The topic that a message made for the destination carries: the string
/// topic, unless an alias is in use and the topic is not asked for.
pub open spec fn message_topic(t: TopicView, inc_topic: bool) -> Seq<char> {
    if t.alias == 0 || inc_topic {
        t.topic
    } else {
        Seq::empty()
    }
}

/// The properties of a message made for the destination: the topic alias
/// property when an alias is in use, none otherwise.
pub open spec fn message_props(t: TopicView) -> Seq<PropertyView> {
    if t.alias != 0 {
        seq![PropertyView { code: PropertyCode::TopicAlias, value: PropertyValueView::TwoByte(t.alias) }]
    } else {
        Seq::empty()
    }
}

/// Whether `m` is the message that the destination `t` makes of the payload.
pub open spec fn topic_message(m: Message, t: TopicView, payload: Seq<u8>, inc_topic: bool) -> bool {
    message_is(
        m,
        message_topic(t, inc_topic),
        payload,
        message_props(t),
        qos_number(t.qos) as i32,
        if t.retained { 1 } else { 0 },
    )
}

/// A topic destination for messages.
///
/// This keeps message parameters for repeatedly publishing to the same
/// topic on a server.
pub struct Topic {
    topic: String,
    qos: QoS,
    retained: bool,
    alias: u16,
}

impl View for Topic {
    type V = TopicView;

    closed spec fn view(&self) -> TopicView {
        TopicView { topic: self.topic@, qos: self.qos, retained: self.retained, alias: self.alias }
    }
}

impl Topic {
    /// The topic can be a C string.
    #[verifier::type_invariant]
    closed spec fn topic_fits(self) -> bool {
        no_nul(self.topic@)
    }

    /// Creates a new topic object for publishing messages.
    ///
    /// # Arguments
    ///
    /// `topic` The topic on which to publish the messages
    /// `qos` The quality of service for messages
    pub fn new<T: IntoText, Q: IntoQoS>(topic: T, qos: Q) -> (r: Self)
        requires
            no_nul(topic.text_view()),
        ensures
            r@ == (TopicView { topic: topic.text_view(), qos: qos.qos_view(), retained: false, alias: 0 }),
    {
        Topic { topic: topic.into_text(), qos: qos.into_qos(), retained: false, alias: 0 }
    }

    /// Creates a new topic object for publishing retained messages.
    ///
    /// # Arguments
    ///
    /// `topic` The topic on which to publish the messages
    /// `qos` The quality of service for messages
    pub fn new_retained<T: IntoText, Q: IntoQoS>(topic: T, qos: Q) -> (r: Self)
        requires
            no_nul(topic.text_view()),
        ensures
            r@ == (TopicView { topic: topic.text_view(), qos: qos.qos_view(), retained: true, alias: 0 }),
    {
        Topic { topic: topic.into_text(), qos: qos.into_qos(), retained: true, alias: 0 }
    }

    /// Create a message for the topic using the supplied payload.
    ///
    /// If `inc_topic` is true, this will create a message containing the
    /// string topic whether or not the alias is set. This would be done
    /// to set the topic alias on the server.
    ///
    /// If `inc_topic` is false, then the topic will be left blank if the
    /// alias is set, and the topic alias property will be added to the
    /// message.
    pub fn create_message_with_topic<V: IntoBinary>(&self, payload: V, inc_topic: bool) -> (r: Message)
        ensures
            topic_message(r, self@, payload.binary_view(), inc_topic),
    {
        proof {
            use_type_invariant(self);
            reveal_strlit("");
        }
        let mut bld = MessageBuilder::new().payload(payload).qos(self.qos).retained(self.retained);
        if self.alias == 0 || inc_topic {
            bld = bld.topic(self.topic.as_str());
        }
        if self.alias != 0 {
            let mut props = Properties::new();
            let _ = props.push_u16(PropertyCode::TopicAlias, self.alias);
            assert(props@ =~= message_props(self@));
            bld = bld.properties(props);
        }
        assert(bld@.topic =~= message_topic(self@, inc_topic));
        assert(bld@.props =~= message_props(self@));
        bld.finalize()
    }

    /// Create a message for the topic using the supplied payload
    pub fn create_message<V: IntoBinary>(&self, payload: V) -> (r: Message)
        ensures
            topic_message(r, self@, payload.binary_view(), false),
    {
        self.create_message_with_topic(payload, false)
    }

    /// Sets the topic alias and creates the message that carries it to the
    /// broker: the string topic together with the alias property.
    ///
    /// After this the object keeps the alias and uses it for subsequent
    /// messages in place of the string topic. An alias of zero makes it
    /// stop using the alias and go back to the string topic name.
    pub fn create_message_with_alias<V: IntoBinary>(&mut self, alias: u16, payload: V) -> (r: Message)
        ensures
            final(self)@ == (TopicView { alias, ..old(self)@ }),
            topic_message(r, final(self)@, payload.binary_view(), true),
    {
        proof {
            use_type_invariant(&*self);
        }
        self.alias = alias;
        self.create_message_with_topic(payload, true)
    }

    /// Gets the alias for the topic, if any.
    pub fn alias(&self) -> (r: Option<u16>)
        ensures
            r == (if self@.alias == 0 { None } else { Some(self@.alias) }),
    {
        if self.alias == 0 {
            None
        } else {
            Some(self.alias)
        }
    }

    /// Removes the alias, if any, from the topic.
    ///
    /// After removing the alias, published messages contain the full string
    /// topic.
    pub fn remove_alias(&mut self)
        ensures
            final(self)@ == (TopicView { alias: 0, ..old(self)@ }),
    {
        proof {
            use_type_invariant(&*self);
        }
        self.alias = 0;
    }
}

/// Once an alias other than zero is set, the messages made for the
/// destination leave the string topic out and carry the alias property.
pub proof fn lemma_alias_replaces_topic(t: TopicView, alias: u16)
    requires
        alias != 0,
    ensures
        message_topic(TopicView { alias, ..t }, false) == Seq::<char>::empty(),
        message_props(TopicView { alias, ..t }) == seq![
            PropertyView { code: PropertyCode::TopicAlias, value: PropertyValueView::TwoByte(alias) },
        ],
        message_topic(TopicView { alias, ..t }, true) == t.topic,
{
}

/// Without an alias (none set, an alias of zero, or one removed) the
/// messages made for the destination carry the string topic and no
/// properties.
pub proof fn lemma_no_alias_sends_topic(t: TopicView, inc_topic: bool)
    ensures
        message_topic(TopicView { alias: 0, ..t }, inc_topic) == t.topic,
        message_props(TopicView { alias: 0, ..t }) == Seq::<PropertyView>::empty(),
{
}

} // verus!
