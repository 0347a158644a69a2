//! MQTT v5 subscribe options.
//!
//! The defaults use the behavior that was present in MQTT v3.1.1.

#![allow(non_snake_case)]

use vstd::prelude::*;

use crate::errors::Error;

verus! {

/// Receive our own publications when subscribed to the same topics.
/// This is the default and the same behavior as MQTT v3.x
pub const SUBSCRIBE_LOCAL: bool = false;

/// Don't receive our own publications when subscribed to the same topics.
pub const SUBSCRIBE_NO_LOCAL: bool = true;

/// Retain flag is only set on publications sent by a broker if in
/// response to a subscribe request.
/// This is the default and the same behavior as MQTT v3.x
pub const NO_RETAIN_AS_PUBLISHED: bool = false;

/// Keep the retain flag as on the original publish message
pub const RETAIN_AS_PUBLISHED: bool = true;

/// The version of the C subscribe options struct that this library fills.
pub const SUBSCRIBE_OPTIONS_STRUCT_VERSION: i32 = 0;

/// The options for subscription retain handling.
#[derive(Debug, Clone, Copy, PartialEq, Eq, Structural)]
pub enum RetainHandling {
    /// Send retained messages at the time of the subscribe
    /// This is the default and the same behavior as MQTT v3.x
    SendRetainedOnSubscribe,
    /// Send retained messages on subscribe only if subscription is new
    SendRetainedOnNew,
    /// Do not send retained messages at all
    DontSendRetained,
}

/// The wire value of a retain handling option.
pub open spec fn retain_handling_number(h: RetainHandling) -> u8 {
    match h {
        RetainHandling::SendRetainedOnSubscribe => 0,
        RetainHandling::SendRetainedOnNew => 1,
        RetainHandling::DontSendRetained => 2,
    }
}

/// The retain handling option for a value, if it names one.
pub open spec fn retain_handling_of(val: i32) -> Option<RetainHandling> {
    if val == 0 {
        Some(RetainHandling::SendRetainedOnSubscribe)
    } else if val == 1 {
        Some(RetainHandling::SendRetainedOnNew)
    } else if val == 2 {
        Some(RetainHandling::DontSendRetained)
    } else {
        None
    }
}

/// The display text of a retain handling option.
pub open spec fn retain_handling_text(h: RetainHandling) -> Seq<char> {
    match h {
        RetainHandling::SendRetainedOnSubscribe => "Send Retain on Subscribe"@,
        RetainHandling::SendRetainedOnNew => "Send Retain on New"@,
        RetainHandling::DontSendRetained => "Don't Send Retain"@,
    }
}

impl RetainHandling {
    /// Gets the wire value of the option.
    pub fn value(self) -> (r: u8)
        ensures
            r == retain_handling_number(self),
    {
        match self {
            RetainHandling::SendRetainedOnSubscribe => 0,
            RetainHandling::SendRetainedOnNew => 1,
            RetainHandling::DontSendRetained => 2,
        }
    }

    /// Converts an integer to a retain handling option, failing for any
    /// value other than 0, 1 or 2.
    pub fn try_from_i32(val: i32) -> (r: Result<RetainHandling, Error>)
        ensures
            retain_handling_of(val) matches Some(h) ==> r == Ok::<RetainHandling, Error>(h),
            retain_handling_of(val) is None ==> (r matches Err(Error::General(s)) && s@
                == "Invalid value for RetainedHandling"@),
    {
        if val == 0 {
            Ok(RetainHandling::SendRetainedOnSubscribe)
        } else if val == 1 {
            Ok(RetainHandling::SendRetainedOnNew)
        } else if val == 2 {
            Ok(RetainHandling::DontSendRetained)
        } else {
            Err(Error::from("Invalid value for RetainedHandling"))
        }
    }

    /// Gets the display text of the option.
    pub fn to_string(&self) -> (r: String)
        ensures
            r@ == retain_handling_text(*self),
    {
        match self {
            RetainHandling::SendRetainedOnSubscribe => String::from_str("Send Retain on Subscribe"),
            RetainHandling::SendRetainedOnNew => String::from_str("Send Retain on New"),
            RetainHandling::DontSendRetained => String::from_str("Don't Send Retain"),
        }
    }
}

impl Default for RetainHandling {
    /// The default is to send retained messages at the time of the
    /// subscribe. This is the same behavior as MQTT v3.x
    fn default() -> (r: Self)
        ensures
            r == RetainHandling::SendRetainedOnSubscribe,
    {
        RetainHandling::SendRetainedOnSubscribe
    }
}

/// A value that names an optional retain handling option.
pub trait IntoRetainHandling: Sized {
    /// The option that the value names, if any.
    spec fn handling_view(&self) -> Option<RetainHandling>;

    /// Converts the value into an optional retain handling option.
    fn into_retain_handling(self) -> (r: Option<RetainHandling>)
        ensures
            r == self.handling_view(),
    ;
}

impl IntoRetainHandling for RetainHandling {
    open spec fn handling_view(&self) -> Option<RetainHandling> {
        Some(*self)
    }

    fn into_retain_handling(self) -> (r: Option<RetainHandling>) {
        Some(self)
    }
}

impl IntoRetainHandling for Option<RetainHandling> {
    open spec fn handling_view(&self) -> Option<RetainHandling> {
        *self
    }

    fn into_retain_handling(self) -> (r: Option<RetainHandling>) {
        self
    }
}

/// The plain fields of the C library's subscribe options struct.
#[derive(Debug, Clone, Copy)]
pub struct CSubscribeOptions {
    /// The struct identifier, "MQSO".
    pub struct_id: [u8; 4],
    /// The version of the struct.
    pub struct_version: i32,
    /// Whether the client does not want its own publications (non-zero).
    pub noLocal: u8,
    /// Whether the retain flag is kept as published (non-zero).
    pub retainAsPublished: u8,
    /// The retain handling option, 0 to 2.
    pub retainHandling: u8,
}

/// The C subscribe options struct with the given options.
pub open spec fn subscribe_copts(no_local: bool, retain_as_published: bool, retain_handling: u8) -> CSubscribeOptions {
    CSubscribeOptions {
        struct_id: [77u8, 81u8, 83u8, 79u8],
        struct_version: SUBSCRIBE_OPTIONS_STRUCT_VERSION,
        noLocal: if no_local { 1 } else { 0 },
        retainAsPublished: if retain_as_published { 1 } else { 0 },
        retainHandling: retain_handling,
    }
}

impl Default for CSubscribeOptions {
    /// The C library's subscribe options initializer.
    fn default() -> (r: Self)
        ensures
            r == subscribe_copts(false, false, 0),
    {
        CSubscribeOptions {
            struct_id: [77u8, 81u8, 83u8, 79u8],
            struct_version: SUBSCRIBE_OPTIONS_STRUCT_VERSION,
            noLocal: 0,
            retainAsPublished: 0,
            retainHandling: 0,
        }
    }
}

/// The MQTT v5 subscribe options.
#[derive(Debug, Clone, Copy)]
pub struct SubscribeOptions {
    /// The C struct with the options.
    pub copts: CSubscribeOptions,
}

/// The subscribe options with the given options.
pub open spec fn subscribe_options(
    no_local: bool,
    retain_as_published: bool,
    retain_handling: RetainHandling,
) -> SubscribeOptions {
    SubscribeOptions {
        copts: subscribe_copts(
            no_local,
            retain_as_published,
            retain_handling_number(retain_handling),
        ),
    }
}

/// The retain handling that a stored value reads as: the option it names,
/// or the default.
pub open spec fn stored_retain_handling(val: u8) -> RetainHandling {
    match retain_handling_of(val as i32) {
        Some(h) => h,
        None => RetainHandling::SendRetainedOnSubscribe,
    }
}

/// A retain handling option that may be absent, with the default in its
/// place.
pub open spec fn handling_or_default(h: Option<RetainHandling>) -> RetainHandling {
    match h {
        Some(h) => h,
        None => RetainHandling::SendRetainedOnSubscribe,
    }
}

impl SubscribeOptions {
    /// Creates set of subscribe options.
    pub fn new<H: IntoRetainHandling>(no_local: bool, retain_as_published: bool, retain_handling: H) -> (r:
        Self)
        ensures
            r == subscribe_options(
                no_local,
                retain_as_published,
                handling_or_default(retain_handling.handling_view()),
            ),
    {
        let retain_handling = match retain_handling.into_retain_handling() {
            Some(h) => h,
            None => RetainHandling::default(),
        };
        let mut copts = CSubscribeOptions::default();
        copts.noLocal = crate::to_c_bool(no_local) as u8;
        copts.retainAsPublished = crate::to_c_bool(retain_as_published) as u8;
        copts.retainHandling = retain_handling.value();
        SubscribeOptions { copts }
    }

    /// Creates set of subscribe options with NO_LOCAL set.
    pub fn with_no_local() -> (r: Self)
        ensures
            r == subscribe_options(true, false, RetainHandling::SendRetainedOnSubscribe),
    {
        let mut copts = CSubscribeOptions::default();
        copts.noLocal = crate::to_c_bool(true) as u8;
        SubscribeOptions { copts }
    }

    /// Creates set of subscribe options with RETAIN_AS_PUBLISHED set.
    pub fn with_retain_as_published() -> (r: Self)
        ensures
            r == subscribe_options(false, true, RetainHandling::SendRetainedOnSubscribe),
    {
        let mut copts = CSubscribeOptions::default();
        copts.retainAsPublished = crate::to_c_bool(true) as u8;
        SubscribeOptions { copts }
    }

    /// Creates set of subscribe options with retain handling set.
    pub fn with_retain_handling(retain_handling: RetainHandling) -> (r: Self)
        ensures
            r == subscribe_options(false, false, retain_handling),
    {
        let mut copts = CSubscribeOptions::default();
        copts.retainHandling = retain_handling.value();
        SubscribeOptions { copts }
    }

    /// Get the value of the 'no local' option.
    pub fn no_local(&self) -> (r: bool)
        ensures
            r == (self.copts.noLocal != 0),
    {
        crate::from_c_bool(self.copts.noLocal as i32)
    }

    /// Get the value of the 'retain as published' option.
    pub fn retain_as_published(&self) -> (r: bool)
        ensures
            r == (self.copts.retainAsPublished != 0),
    {
        crate::from_c_bool(self.copts.retainAsPublished as i32)
    }

    /// Get the value of the 'retain handling' option.
    pub fn retain_handling(&self) -> (r: RetainHandling)
        ensures
            r == stored_retain_handling(self.copts.retainHandling),
    {
        match RetainHandling::try_from_i32(self.copts.retainHandling as i32) {
            Ok(h) => h,
            Err(_) => RetainHandling::default(),
        }
    }
}

impl Default for SubscribeOptions {
    /// The options of MQTT v3.x: receive our own publications, retain flag
    /// only on replies to a subscribe, retained messages sent on subscribe.
    fn default() -> (r: Self)
        ensures
            r == subscribe_options(false, false, RetainHandling::SendRetainedOnSubscribe),
    {
        SubscribeOptions { copts: CSubscribeOptions::default() }
    }
}

impl From<bool> for SubscribeOptions {
    fn from(no_local: bool) -> (r: Self) {
        SubscribeOptions::new(no_local, false, None)
    }
}

impl vstd::std_specs::convert::FromSpecImpl<bool> for SubscribeOptions {
    open spec fn obeys_from_spec() -> bool {
        true
    }

    open spec fn from_spec(v: bool) -> SubscribeOptions {
        subscribe_options(v, false, RetainHandling::SendRetainedOnSubscribe)
    }
}

impl From<Option<bool>> for SubscribeOptions {
    fn from(no_local: Option<bool>) -> (r: Self) {
        let no_local = match no_local {
            Some(b) => b,
            None => false,
        };
        SubscribeOptions::new(no_local, false, None)
    }
}

impl vstd::std_specs::convert::FromSpecImpl<Option<bool>> for SubscribeOptions {
    open spec fn obeys_from_spec() -> bool {
        true
    }

    open spec fn from_spec(v: Option<bool>) -> SubscribeOptions {
        subscribe_options(v == Some(true), false, RetainHandling::SendRetainedOnSubscribe)
    }
}

impl From<(bool, bool)> for SubscribeOptions {
    fn from(opts: (bool, bool)) -> (r: Self) {
        SubscribeOptions::new(opts.0, opts.1, None)
    }
}

impl vstd::std_specs::convert::FromSpecImpl<(bool, bool)> for SubscribeOptions {
    open spec fn obeys_from_spec() -> bool {
        true
    }

    open spec fn from_spec(v: (bool, bool)) -> SubscribeOptions {
        subscribe_options(v.0, v.1, RetainHandling::SendRetainedOnSubscribe)
    }
}

impl From<(bool, bool, RetainHandling)> for SubscribeOptions {
    fn from(opts: (bool, bool, RetainHandling)) -> (r: Self) {
        SubscribeOptions::new(opts.0, opts.1, opts.2)
    }
}

impl vstd::std_specs::convert::FromSpecImpl<(bool, bool, RetainHandling)> for SubscribeOptions {
    open spec fn obeys_from_spec() -> bool {
        true
    }

    open spec fn from_spec(v: (bool, bool, RetainHandling)) -> SubscribeOptions {
        subscribe_options(v.0, v.1, v.2)
    }
}

/// Builder for creating subscription options.
#[derive(Debug, Clone, Copy)]
pub struct SubscribeOptionsBuilder {
    copts: CSubscribeOptions,
}

impl View for SubscribeOptionsBuilder {
    type V = CSubscribeOptions;

    closed spec fn view(&self) -> CSubscribeOptions {
        self.copts
    }
}

impl SubscribeOptionsBuilder {
    /// Create a new `SubscribeOptionsBuilder`
    pub fn new() -> (r: Self)
        ensures
            r@ == subscribe_copts(false, false, 0),
    {
        SubscribeOptionsBuilder { copts: CSubscribeOptions::default() }
    }

    /// Set so that the client doesn't receive its own messages that it
    /// publishes on the topic.
    pub fn no_local(&mut self, on: bool) -> (r: &mut Self)
        ensures
            r@ == (CSubscribeOptions { noLocal: if on { 1u8 } else { 0u8 }, ..old(self)@ }),
            final(self)@ == final(r)@,
    {
        self.copts.noLocal = crate::to_c_bool(on) as u8;
        self
    }

    /// Set to keep the retain flag as on the original published message.
    /// If not set, the original MQTT behavior is where the retain flag is
    /// only set on publications sent by a broker if in response to a
    /// subscribe request.
    pub fn retain_as_published(&mut self, retain: bool) -> (r: &mut Self)
        ensures
            r@ == (CSubscribeOptions {
                retainAsPublished: if retain { 1u8 } else { 0u8 },
                ..old(self)@
            }),
            final(self)@ == final(r)@,
    {
        self.copts.retainAsPublished = crate::to_c_bool(retain) as u8;
        self
    }

    /// Sets how retained messages are handled.
    pub fn retain_handling(&mut self, handling: RetainHandling) -> (r: &mut Self)
        ensures
            r@ == (CSubscribeOptions {
                retainHandling: retain_handling_number(handling),
                ..old(self)@
            }),
            final(self)@ == final(r)@,
    {
        self.copts.retainHandling = handling.value();
        self
    }

    /// Finalizes the builder to create the subscribe options.
    pub fn finalize(&self) -> (r: SubscribeOptions)
        ensures
            r.copts == self@,
    {
        SubscribeOptions { copts: self.copts }
    }
}

impl Default for SubscribeOptionsBuilder {
    /// Create a new `SubscribeOptionsBuilder`
    fn default() -> (r: Self)
        ensures
            r@ == subscribe_copts(false, false, 0),
    {
        Self::new()
    }
}

/// The options read back what they were made with.
pub proof fn lemma_subscribe_options_roundtrip(
    no_local: bool,
    retain_as_published: bool,
    retain_handling: RetainHandling,
)
    ensures
        ({
            let o = subscribe_options(no_local, retain_as_published, retain_handling);
            &&& (o.copts.noLocal != 0) == no_local
            &&& (o.copts.retainAsPublished != 0) == retain_as_published
            &&& stored_retain_handling(o.copts.retainHandling) == retain_handling
        }),
{
}


/// One setter call on a subscribe options builder.
pub enum SubscribeSetting {
    /// A call of `no_local`.
    NoLocal(bool),
    /// A call of `retain_as_published`.
    RetainAsPublished(bool),
    /// A call of `retain_handling`.
    RetainHandling(RetainHandling),
}

/// The builder's options after one setter call, as the setters' contracts
/// state.
pub open spec fn setting_applied(c: CSubscribeOptions, s: SubscribeSetting) -> CSubscribeOptions {
    match s {
        SubscribeSetting::NoLocal(on) => CSubscribeOptions { noLocal: if on { 1u8 } else { 0u8 }, ..c },
        SubscribeSetting::RetainAsPublished(on) => CSubscribeOptions {
            retainAsPublished: if on { 1u8 } else { 0u8 },
            ..c
        },
        SubscribeSetting::RetainHandling(h) => CSubscribeOptions {
            retainHandling: retain_handling_number(h),
            ..c
        },
    }
}

/// The builder's options after the setter calls, in order.
pub open spec fn settings_applied(c: CSubscribeOptions, ss: Seq<SubscribeSetting>) -> CSubscribeOptions
    decreases ss.len(),
{
    if ss.len() == 0 {
        c
    } else {
        setting_applied(settings_applied(c, ss.drop_last()), ss.last())
    }
}

/// The value of the last `no_local` call, or `dflt` without one.
pub open spec fn last_no_local(ss: Seq<SubscribeSetting>, dflt: bool) -> bool
    decreases ss.len(),
{
    if ss.len() == 0 {
        dflt
    } else {
        match ss.last() {
            SubscribeSetting::NoLocal(on) => on,
            _ => last_no_local(ss.drop_last(), dflt),
        }
    }
}

/// The value of the last `retain_as_published` call, or `dflt` without one.
pub open spec fn last_retain_as_published(ss: Seq<SubscribeSetting>, dflt: bool) -> bool
    decreases ss.len(),
{
    if ss.len() == 0 {
        dflt
    } else {
        match ss.last() {
            SubscribeSetting::RetainAsPublished(on) => on,
            _ => last_retain_as_published(ss.drop_last(), dflt),
        }
    }
}

/// The value of the last `retain_handling` call, or `dflt` without one.
pub open spec fn last_retain_handling(ss: Seq<SubscribeSetting>, dflt: RetainHandling) -> RetainHandling
    decreases ss.len(),
{
    if ss.len() == 0 {
        dflt
    } else {
        match ss.last() {
            SubscribeSetting::RetainHandling(h) => h,
            _ => last_retain_handling(ss.drop_last(), dflt),
        }
    }
}

/// Setter calls on options made with the given settings leave the options
/// made with the last value given to each setter.
pub proof fn lemma_settings_keep_last(
    no_local: bool,
    retain_as_published: bool,
    handling: RetainHandling,
    ss: Seq<SubscribeSetting>,
)
    ensures
        settings_applied(subscribe_copts(no_local, retain_as_published, retain_handling_number(handling)), ss)
            == subscribe_copts(
            last_no_local(ss, no_local),
            last_retain_as_published(ss, retain_as_published),
            retain_handling_number(last_retain_handling(ss, handling)),
        ),
    decreases ss.len(),
{
    if ss.len() > 0 {
        lemma_settings_keep_last(no_local, retain_as_published, handling, ss.drop_last());
    }
}

/// A builder that gets any sequence of setter calls finalizes to options
/// that read back the last value given to each setter: no local and
/// retain-as-published off, and retained messages sent on subscribe, where a
/// setter was never called.
pub proof fn lemma_builder_keeps_last_settings(ss: Seq<SubscribeSetting>)
    ensures
        ({
            let c = settings_applied(subscribe_copts(false, false, 0), ss);
            &&& (c.noLocal != 0) == last_no_local(ss, false)
            &&& (c.retainAsPublished != 0) == last_retain_as_published(ss, false)
            &&& stored_retain_handling(c.retainHandling) == last_retain_handling(
                ss,
                RetainHandling::SendRetainedOnSubscribe,
            )
        }),
{
    lemma_settings_keep_last(false, false, RetainHandling::SendRetainedOnSubscribe, ss);
    lemma_subscribe_options_roundtrip(
        last_no_local(ss, false),
        last_retain_as_published(ss, false),
        last_retain_handling(ss, RetainHandling::SendRetainedOnSubscribe),
    );
}

} // verus!
