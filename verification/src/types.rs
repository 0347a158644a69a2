//! MQTT support types: protocol versions and quality of service levels.

use vstd::prelude::*;

use crate::errors::Error;

verus! {

/// The default version to connect with.
/// First try v3.1.1, and if that fails, try v3.1
pub const MQTT_VERSION_DEFAULT: u32 = 0;

/// Connect with MQTT v3.1
pub const MQTT_VERSION_3_1: u32 = 3;

/// Connect with MQTT v3.1.1
pub const MQTT_VERSION_3_1_1: u32 = 4;

/// Connect with MQTT v5
pub const MQTT_VERSION_5: u32 = 5;

/// Quality of Service Zero: At most once
pub const QOS_0: i32 = 0;

/// Quality of Service One: At least once
pub const QOS_1: i32 = 1;

/// Quality of Service Two: Exactly Once
pub const QOS_2: i32 = 2;

/// Supported MQTT protocol versions
#[derive(Debug, Clone, Copy, PartialEq, Eq, Structural, Hash)]
pub enum MqttVersion {
    /// The default v3.1.1 or v3.1
    Default,
    /// Version 3.1 (byte 3)
    V3_1,
    /// Version 3.1.1 (byte 4)
    V3_1_1,
    /// Version 5
    V5,
}

/// The protocol number carried by each version.
pub open spec fn mqtt_version_number(ver: MqttVersion) -> u32 {
    match ver {
        MqttVersion::Default => MQTT_VERSION_DEFAULT,
        MqttVersion::V3_1 => MQTT_VERSION_3_1,
        MqttVersion::V3_1_1 => MQTT_VERSION_3_1_1,
        MqttVersion::V5 => MQTT_VERSION_5,
    }
}

/// The version named by a protocol number; unknown numbers give the default.
pub open spec fn mqtt_version_of(ver: u32) -> MqttVersion {
    if ver == MQTT_VERSION_3_1 {
        MqttVersion::V3_1
    } else if ver == MQTT_VERSION_3_1_1 {
        MqttVersion::V3_1_1
    } else if ver == MQTT_VERSION_5 {
        MqttVersion::V5
    } else {
        MqttVersion::Default
    }
}

impl MqttVersion {
    /// Gets the protocol number of the version.
    pub fn value(self) -> (r: u32)
        ensures
            r == mqtt_version_number(self),
    {
        match self {
            MqttVersion::Default => MQTT_VERSION_DEFAULT,
            MqttVersion::V3_1 => MQTT_VERSION_3_1,
            MqttVersion::V3_1_1 => MQTT_VERSION_3_1_1,
            MqttVersion::V5 => MQTT_VERSION_5,
        }
    }

    /// Gets the version for a protocol number. Any number that is not a
    /// known version gives `Default`.
    pub fn from_u32(ver: u32) -> (r: MqttVersion)
        ensures
            r == mqtt_version_of(ver),
    {
        if ver == MQTT_VERSION_3_1 {
            MqttVersion::V3_1
        } else if ver == MQTT_VERSION_3_1_1 {
            MqttVersion::V3_1_1
        } else if ver == MQTT_VERSION_5 {
            MqttVersion::V5
        } else {
            MqttVersion::Default
        }
    }

    /// Gets the version for a signed protocol number, as the C library
    /// stores it. The number is reinterpreted as unsigned first.
    pub fn from_i32(ver: i32) -> (r: MqttVersion)
        ensures
            r == mqtt_version_of(ver as u32),
    {
        Self::from_u32(ver as u32)
    }

    /// Whether this version is lower than `other` in protocol numbering.
    pub fn is_before(self, other: MqttVersion) -> (r: bool)
        ensures
            r == (mqtt_version_number(self) < mqtt_version_number(other)),
    {
        self.value() < other.value()
    }
}

/// Decoding a version's own number gives the version back.
pub proof fn lemma_mqtt_version_roundtrip(ver: MqttVersion)
    ensures
        mqtt_version_of(mqtt_version_number(ver)) == ver,
{
}

/// Supported Quality of Service levels
#[derive(Debug, Clone, Copy, PartialEq, Eq, Structural, Hash)]
pub enum QoS {
    /// At most once
    AtMostOnce,
    /// At least once
    AtLeastOnce,
    /// Exactly Once
    ExactlyOnce,
}

/// The wire value of a QoS level.
pub open spec fn qos_number(q: QoS) -> u8 {
    match q {
        QoS::AtMostOnce => 0,
        QoS::AtLeastOnce => 1,
        QoS::ExactlyOnce => 2,
    }
}

/// The QoS level for a wire value, if it names one.
pub open spec fn qos_of(n: u8) -> Option<QoS> {
    if n == 0 {
        Some(QoS::AtMostOnce)
    } else if n == 1 {
        Some(QoS::AtLeastOnce)
    } else if n == 2 {
        Some(QoS::ExactlyOnce)
    } else {
        None
    }
}

/// The QoS level an integer converts to: its low byte when that names a
/// level, otherwise the default level.
pub open spec fn qos_from_int(n: i32) -> QoS {
    match qos_of(n as u8) {
        Some(q) => q,
        None => QoS::AtLeastOnce,
    }
}

impl QoS {
    /// At most once
    pub const QoS0: QoS = QoS::AtMostOnce;
    /// At least once
    pub const QoS1: QoS = QoS::AtLeastOnce;
    /// Exactly Once
    pub const QoS2: QoS = QoS::ExactlyOnce;

    /// Gets the wire value of the QoS level.
    pub fn value(self) -> (r: u8)
        ensures
            r == qos_number(self),
    {
        match self {
            QoS::AtMostOnce => 0,
            QoS::AtLeastOnce => 1,
            QoS::ExactlyOnce => 2,
        }
    }

    /// Converts a wire value to a QoS level, failing with `BadQos` for any
    /// value other than 0, 1 or 2.
    pub fn try_from_u8(qos: u8) -> (r: Result<QoS, Error>)
        ensures
            qos_of(qos) matches Some(q) ==> r == Ok::<QoS, Error>(q),
            qos_of(qos) is None ==> r matches Err(Error::BadQos),
    {
        if qos == 0 {
            Ok(QoS::AtMostOnce)
        } else if qos == 1 {
            Ok(QoS::AtLeastOnce)
        } else if qos == 2 {
            Ok(QoS::ExactlyOnce)
        } else {
            Err(Error::BadQos)
        }
    }

    /// Converts an integer to a QoS level. The low byte of the integer is
    /// used; a value that names no level gives the default level.
    pub fn from_i32(qos: i32) -> (r: QoS)
        ensures
            r == qos_from_int(qos),
    {
        match Self::try_from_u8(qos as u8) {
            Ok(q) => q,
            Err(_) => QoS::default(),
        }
    }
}

impl Default for QoS {
    /// The default level is "at least once".
    fn default() -> (r: QoS)
        ensures
            r == QoS::AtLeastOnce,
    {
        QoS::AtLeastOnce
    }
}

impl From<i32> for QoS {
    fn from(qos: i32) -> (r: QoS) {
        QoS::from_i32(qos)
    }
}

impl vstd::std_specs::convert::FromSpecImpl<i32> for QoS {
    open spec fn obeys_from_spec() -> bool {
        true
    }

    open spec fn from_spec(v: i32) -> QoS {
        qos_from_int(v)
    }
}

impl From<u32> for MqttVersion {
    fn from(ver: u32) -> (r: MqttVersion) {
        MqttVersion::from_u32(ver)
    }
}

impl vstd::std_specs::convert::FromSpecImpl<u32> for MqttVersion {
    open spec fn obeys_from_spec() -> bool {
        true
    }

    open spec fn from_spec(v: u32) -> MqttVersion {
        mqtt_version_of(v)
    }
}

/// A level's own wire value converts back to the level.
pub proof fn lemma_qos_roundtrip(q: QoS)
    ensures
        qos_of(qos_number(q)) == Some(q),
        qos_from_int(qos_number(q) as i32) == q,
{
}


/// A value that can be taken as a QoS level: a level, or an integer that
/// converts as `QoS::from` does.
pub trait IntoQoS: Sized {
    /// The level that the value stands for.
    spec fn qos_view(&self) -> QoS;

    /// Converts the value into a QoS level.
    fn into_qos(self) -> (r: QoS)
        ensures
            r == self.qos_view(),
    ;
}

impl IntoQoS for QoS {
    open spec fn qos_view(&self) -> QoS {
        *self
    }

    fn into_qos(self) -> (r: QoS) {
        self
    }
}

impl IntoQoS for i32 {
    open spec fn qos_view(&self) -> QoS {
        qos_from_int(*self)
    }

    fn into_qos(self) -> (r: QoS) {
        QoS::from_i32(self)
    }
}


/// A value that can be taken as an MQTT version: a version, or a protocol
/// number that converts as `MqttVersion::from` does.
pub trait IntoMqttVersion: Sized {
    /// The version that the value stands for.
    spec fn version_view(&self) -> MqttVersion;

    /// Converts the value into a version.
    fn into_mqtt_version(self) -> (r: MqttVersion)
        ensures
            r == self.version_view(),
    ;
}

impl IntoMqttVersion for MqttVersion {
    open spec fn version_view(&self) -> MqttVersion {
        *self
    }

    fn into_mqtt_version(self) -> (r: MqttVersion) {
        self
    }
}

impl IntoMqttVersion for u32 {
    open spec fn version_view(&self) -> MqttVersion {
        mqtt_version_of(*self)
    }

    fn into_mqtt_version(self) -> (r: MqttVersion) {
        MqttVersion::from_u32(self)
    }
}


/// The QoS levels and MQTT versions have the numbers of the protocol: QoS
/// 0, 1 and 2; version 3 for v3.1, 4 for v3.1.1, 5 for v5 and 0 for the
/// engine's default.
pub proof fn lemma_numbers_follow_mqtt()
    ensures
        qos_number(QoS::AtMostOnce) == 0,
        qos_number(QoS::AtLeastOnce) == 1,
        qos_number(QoS::ExactlyOnce) == 2,
        mqtt_version_number(MqttVersion::Default) == 0,
        mqtt_version_number(MqttVersion::V3_1) == 3,
        mqtt_version_number(MqttVersion::V3_1_1) == 4,
        mqtt_version_number(MqttVersion::V5) == 5,
{
}

} // verus!
