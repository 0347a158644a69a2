//! Response options, also called the "call options": the callbacks and
//! MQTT v5 settings (properties, subscribe options) that go with a request.

#![allow(non_snake_case)]

use vstd::prelude::*;

use crate::properties::{Properties, PropertyView};
use crate::subscribe_options::{subscribe_copts, CSubscribeOptions, SubscribeOptions};
use crate::types::{mqtt_version_number, MqttVersion};

verus! {

/// The version of the C response options struct that this library fills.
pub const RESPONSE_OPTIONS_STRUCT_VERSION: i32 = 1;

/// Which completion callbacks a request carries.
#[derive(Debug, Clone, Copy, PartialEq, Eq, Structural)]
pub enum ResponseCallbacks {
    /// No callbacks.
    NoCallbacks,
    /// The MQTT v3 success and failure callbacks.
    V3,
    /// The MQTT v5 success and failure callbacks.
    V5,
}

/// The plain fields of the C library's response options struct.
#[derive(Debug, Clone, Copy)]
pub struct CResponseOptions {
    /// The struct identifier, "MQTR".
    pub struct_id: [u8; 4],
    /// The version of the struct.
    pub struct_version: i32,
    /// The completion callbacks that are set.
    pub callbacks: ResponseCallbacks,
    /// The subscribe options for a single subscription.
    pub subscribeOptions: CSubscribeOptions,
    /// The number of subscribe options in the list for many subscriptions.
    pub subscribeOptionsCount: i32,
}

/// The C response options with the callbacks and default settings.
pub open spec fn response_copts(callbacks: ResponseCallbacks) -> CResponseOptions {
    CResponseOptions {
        struct_id: [77u8, 81u8, 84u8, 82u8],
        struct_version: RESPONSE_OPTIONS_STRUCT_VERSION,
        callbacks,
        subscribeOptions: subscribe_copts(false, false, 0),
        subscribeOptionsCount: 0,
    }
}

/// The callbacks for requests of a client of the MQTT version: the v5
/// callbacks from v5 on, the v3 callbacks before.
pub open spec fn callbacks_for(ver: MqttVersion) -> ResponseCallbacks {
    if mqtt_version_number(ver) < mqtt_version_number(MqttVersion::V5) {
        ResponseCallbacks::V3
    } else {
        ResponseCallbacks::V5
    }
}

impl Default for CResponseOptions {
    /// The C library's response options initializer.
    fn default() -> (r: Self)
        ensures
            r == response_copts(ResponseCallbacks::NoCallbacks),
    {
        CResponseOptions {
            struct_id: [77u8, 81u8, 84u8, 82u8],
            struct_version: RESPONSE_OPTIONS_STRUCT_VERSION,
            callbacks: ResponseCallbacks::NoCallbacks,
            subscribeOptions: CSubscribeOptions::default(),
            subscribeOptionsCount: 0,
        }
    }
}

impl CResponseOptions {
    /// Creates a C response options struct for the specified MQTT version.
    pub fn for_version(ver: MqttVersion) -> (r: Self)
        ensures
            r == response_copts(callbacks_for(ver)),
    {
        let mut copts = CResponseOptions::default();
        copts.callbacks = if ver.is_before(MqttVersion::V5) {
            ResponseCallbacks::V3
        } else {
            ResponseCallbacks::V5
        };
        copts
    }
}

/// The number of subscribe options in an optional list, as a C `int`.
pub open spec fn sub_opts_count(sub_opts: Option<Seq<CSubscribeOptions>>) -> i32 {
    match sub_opts {
        Some(s) => s.len() as i32,
        None => 0,
    }
}

/// The subscribe options in an optional list.
pub open spec fn opt_copts_view(v: Option<Vec<CSubscribeOptions>>) -> Option<Seq<CSubscribeOptions>> {
    match v {
        Some(v) => Some(v@),
        None => None,
    }
}

/// The collection of options for responses coming back to the client.
#[derive(Debug)]
pub struct ResponseOptions {
    /// The underlying C options struct
    pub copts: CResponseOptions,
    /// The MQTT v5 properties
    pub props: Properties,
    /// The MQTT v5 subscription options, one per topic, for a request
    /// with many subscriptions.
    pub sub_opts: Option<Vec<CSubscribeOptions>>,
}

impl ResponseOptions {
    /// Combines the C struct with the cached data, recording the number of
    /// subscribe options in the list.
    fn from_data(copts: CResponseOptions, props: Properties, sub_opts: Option<Vec<CSubscribeOptions>>) -> (r:
        Self)
        ensures
            r.copts == (CResponseOptions {
                subscribeOptionsCount: sub_opts_count(opt_copts_view(sub_opts)),
                ..copts
            }),
            r.props@ == props@,
            opt_copts_view(r.sub_opts) == opt_copts_view(sub_opts),
    {
        let mut copts = copts;
        copts.subscribeOptionsCount = match &sub_opts {
            Some(v) => v.len() as i32,
            None => 0,
        };
        ResponseOptions { copts, props, sub_opts }
    }

    /// Gets the MQTT v5 properties in the response, if any.
    pub fn properties(&self) -> (r: &Properties)
        ensures
            r@ == self.props@,
    {
        &self.props
    }
}

impl Default for ResponseOptions {
    /// Options with no callbacks, properties or subscribe options.
    fn default() -> (r: Self)
        ensures
            r.copts == response_copts(ResponseCallbacks::NoCallbacks),
            r.props@ == Seq::<PropertyView>::empty(),
            r.sub_opts is None,
    {
        Self::from_data(CResponseOptions::default(), Properties::new(), None)
    }
}

/// What a response options builder holds.
pub struct ResponseOptionsBuilderView {
    /// The C options.
    pub copts: CResponseOptions,
    /// The properties.
    pub props: Seq<PropertyView>,
    /// The list of subscribe options for many subscriptions, if any.
    pub sub_opts: Option<Seq<CSubscribeOptions>>,
}

/// Builder to create MQTT v5 response options.
pub struct ResponseOptionsBuilder {
    copts: CResponseOptions,
    props: Properties,
    sub_opts: Option<Vec<CSubscribeOptions>>,
}

impl View for ResponseOptionsBuilder {
    type V = ResponseOptionsBuilderView;

    closed spec fn view(&self) -> ResponseOptionsBuilderView {
        ResponseOptionsBuilderView {
            copts: self.copts,
            props: self.props@,
            sub_opts: opt_copts_view(self.sub_opts),
        }
    }
}

/// The C options of a list of subscribe options.
pub open spec fn copts_of(opts: Seq<SubscribeOptions>) -> Seq<CSubscribeOptions> {
    opts.map_values(|o: SubscribeOptions| o.copts)
}

impl ResponseOptionsBuilder {
    /// Creates a new builder starting with default options, for MQTT v5.
    pub fn new() -> (r: Self)
        ensures
            r@ == (ResponseOptionsBuilderView {
                copts: response_copts(ResponseCallbacks::V5),
                props: Seq::empty(),
                sub_opts: None,
            }),
    {
        ResponseOptionsBuilder {
            copts: CResponseOptions::for_version(MqttVersion::V5),
            props: Properties::new(),
            sub_opts: None,
        }
    }

    /// Sets the collection of properties for the request.
    pub fn properties(&mut self, props: Properties) -> (r: &mut Self)
        ensures
            r@ == (ResponseOptionsBuilderView { props: props@, ..old(self)@ }),
            final(self)@ == final(r)@,
    {
        self.props = props;
        self
    }

    /// Sets a single set of subscribe options - for a call to subscribe()
    pub fn subscribe_options(&mut self, opts: SubscribeOptions) -> (r: &mut Self)
        ensures
            r@ == (ResponseOptionsBuilderView {
                copts: CResponseOptions { subscribeOptions: opts.copts, ..old(self)@.copts },
                ..old(self)@
            }),
            final(self)@ == final(r)@,
    {
        self.copts.subscribeOptions = opts.copts;
        self
    }

    /// Sets the subscribe options for a call to subscribe_many(): nothing
    /// for none, the single set for one (the C library uses the single set
    /// when there is at most one), and the list for more.
    pub fn subscribe_many_options(&mut self, opts: &[SubscribeOptions]) -> (r: &mut Self)
        ensures
            opts@.len() == 0 ==> r@ == old(self)@,
            opts@.len() == 1 ==> r@ == (ResponseOptionsBuilderView {
                copts: CResponseOptions { subscribeOptions: opts@[0].copts, ..old(self)@.copts },
                ..old(self)@
            }),
            opts@.len() > 1 ==> r@ == (ResponseOptionsBuilderView {
                sub_opts: Some(copts_of(opts@)),
                ..old(self)@
            }),
            final(self)@ == final(r)@,
    {
        if opts.len() == 1 {
            self.copts.subscribeOptions = opts[0].copts;
        } else if opts.len() > 1 {
            let mut list: Vec<CSubscribeOptions> = Vec::new();
            let mut i: usize = 0;
            while i < opts.len()
                invariant
                    i <= opts@.len(),
                    list@ == copts_of(opts@.take(i as int)),
                decreases opts@.len() - i,
            {
                list.push(opts[i].copts);
                i = i + 1;
                assert(list@ =~= copts_of(opts@.take(i as int)));
            }
            assert(opts@.take(i as int) =~= opts@);
            self.sub_opts = Some(list);
        }
        self
    }

    /// Create the response options from the builder.
    pub fn finalize(&self) -> (r: ResponseOptions)
        ensures
            r.copts == (CResponseOptions {
                subscribeOptionsCount: sub_opts_count(self@.sub_opts),
                ..self@.copts
            }),
            r.props@ == self@.props,
            opt_copts_view(r.sub_opts) == self@.sub_opts,
    {
        let sub_opts = match &self.sub_opts {
            Some(v) => Some(vstd::slice::slice_to_vec(v.as_slice())),
            None => None,
        };
        ResponseOptions::from_data(self.copts, self.props.clone(), sub_opts)
    }
}

impl Default for ResponseOptionsBuilder {
    /// Creates a builder with the C library's default options, with no
    /// callbacks set.
    fn default() -> (r: Self)
        ensures
            r@ == (ResponseOptionsBuilderView {
                copts: response_copts(ResponseCallbacks::NoCallbacks),
                props: Seq::empty(),
                sub_opts: None,
            }),
    {
        ResponseOptionsBuilder {
            copts: CResponseOptions::default(),
            props: Properties::new(),
            sub_opts: None,
        }
    }
}

} // verus!
