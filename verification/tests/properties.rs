use paho_mqtt::properties::{
    Properties, Property, PropertyCode, PropertyType, MQTTPROPERTY_CODE_AUTHENTICATION_METHOD,
    MQTTPROPERTY_CODE_PAYLOAD_FORMAT_INDICATOR, MQTTPROPERTY_CODE_USER_PROPERTY,
    MQTTPROPERTY_TYPE_BINARY_DATA, MQTTPROPERTY_TYPE_BYTE, ValueType,
};
use paho_mqtt::Error;

#[test]
fn test_property_type_new() {
    assert_eq!(PropertyType::new(MQTTPROPERTY_TYPE_BYTE), Some(PropertyType::Byte));
    assert_eq!(
        PropertyType::new(MQTTPROPERTY_TYPE_BINARY_DATA),
        Some(PropertyType::BinaryData)
    );

    assert_eq!(PropertyType::new(7), None);
}

#[test]
fn test_property_code_new() {
    assert_eq!(
        PropertyCode::new(MQTTPROPERTY_CODE_PAYLOAD_FORMAT_INDICATOR),
        Some(PropertyCode::PayloadFormatIndicator)
    );
    assert_eq!(
        PropertyCode::new(MQTTPROPERTY_CODE_AUTHENTICATION_METHOD),
        Some(PropertyCode::AuthenticationMethod)
    );
    assert_eq!(
        PropertyCode::new(MQTTPROPERTY_CODE_USER_PROPERTY),
        Some(PropertyCode::UserProperty)
    );
}

#[test]
fn test_property_generic_new() {
    let prop = Property::new(PropertyCode::ResponseTopic, 42u16);
    assert!(!prop.is_ok());

    let prop = Property::new(PropertyCode::MaximumQos, 2u8);
    assert!(prop.is_ok());

    let topic = "data/temp".to_string();
    let prop = Property::new(PropertyCode::ResponseTopic, topic.clone()).unwrap();
    assert_eq!(prop.get_string(), Some(topic));

    let topic = "data/temp";
    let prop = Property::new(PropertyCode::ResponseTopic, topic).unwrap();
    assert_eq!(prop.get_string(), Some(topic.to_string()));
}

#[test]
fn test_new_property_byte() {
    let val = 1u8;

    let prop = Property::new_byte(PropertyCode::PayloadFormatIndicator, val).unwrap();

    assert_eq!(prop.property_code(), PropertyCode::PayloadFormatIndicator);
    assert_eq!(prop.get_byte(), Some(val));

    assert_eq!(prop.get_byte(), Some(val));
    assert_eq!(prop.get::<u8>(), Some(val));

    let val = 1i32;
    let prop = Property::new_int(PropertyCode::PayloadFormatIndicator, val).unwrap();

    assert_eq!(prop.property_code(), PropertyCode::PayloadFormatIndicator);
    assert_eq!(prop.get_byte(), Some(val as u8));

    assert_eq!(prop.get_int(), Some(val));
    assert_eq!(prop.get::<i32>(), Some(val));

    let res = Property::new_int(PropertyCode::PayloadFormatIndicator, 0x100);
    assert!(res.is_err());
}

#[test]
fn test_new_property_u16() {
    let val = 1024u16;
    let prop = Property::new_u16(PropertyCode::ReceiveMaximum, val).unwrap();

    assert_eq!(prop.property_code(), PropertyCode::ReceiveMaximum);
    assert_eq!(prop.get_u16(), Some(val));

    assert_eq!(prop.get_u16(), Some(val));
    assert_eq!(prop.get::<u16>(), Some(val));

    let val = 1024i32;
    let prop = Property::new_int(PropertyCode::ReceiveMaximum, val).unwrap();

    assert_eq!(prop.property_code(), PropertyCode::ReceiveMaximum);
    assert_eq!(prop.get_u16(), Some(val as u16));

    assert_eq!(prop.get_int(), Some(val));
    assert_eq!(prop.get::<i32>(), Some(val));

    assert_eq!(prop.get_u16(), Some(val as u16));
    assert_eq!(prop.get::<u16>(), Some(val as u16));

    let res = Property::new_int(PropertyCode::ReceiveMaximum, 0x10000);
    assert!(res.is_err());
}

#[test]
fn test_new_property_i32() {
    let val = 1024 * 1024;
    let prop = Property::new_int(PropertyCode::MessageExpiryInterval, val).unwrap();

    assert_eq!(prop.property_code(), PropertyCode::MessageExpiryInterval);
    assert_eq!(prop.get_u32(), Some(val as u32));
}

#[test]
fn test_new_property_binary() {
    let val = "12345"; // Anything that can be converted into Vec<u8>
    let prop = Property::new_binary(PropertyCode::CorrelationData, val).unwrap();

    // The data is held, with no second string
    assert_eq!(prop.get_binary().map(|v| v.len()), Some(5));
    assert_eq!(prop.get_string_pair(), None);

    assert_eq!(prop.get_binary(), Some(val.as_bytes().to_vec()));
    assert_eq!(prop.get::<Vec<u8>>(), Some(val.as_bytes().to_vec()));
}

#[test]
fn test_new_property_string() {
    let val = "replies/myqueue";
    let prop = Property::new_string(PropertyCode::ResponseTopic, val).unwrap();

    assert_eq!(prop.get_string().map(|s| s.len()), Some(val.len()));
    assert_eq!(prop.get_string_pair(), None);

    assert_eq!(prop.get_string(), Some(val.to_string()));
    assert_eq!(prop.get::<String>(), Some(val.to_string()));
}

#[test]
fn test_new_property_string_pair() {
    let key = "mykey";
    let val = "myvalue";
    let prop = Property::new_string_pair(PropertyCode::UserProperty, key, val).unwrap();

    assert_eq!(
        prop.get_string_pair(),
        Some((key.to_string(), val.to_string()))
    );
    assert_eq!(
        prop.get::<(String, String)>(),
        Some((key.to_string(), val.to_string()))
    );
}

#[test]
fn test_move_property_int() {
    let val = 1024 * 1024;

    let org_prop = Property::new_int(PropertyCode::MessageExpiryInterval, val).unwrap();
    assert_eq!(org_prop.property_code(), PropertyCode::MessageExpiryInterval);
    assert_eq!(org_prop.get_u32(), Some(val as u32));

    let prop = org_prop;
    assert_eq!(prop.property_code(), PropertyCode::MessageExpiryInterval);
    assert_eq!(prop.get_u32(), Some(val as u32));
}

#[test]
fn test_move_property_binary() {
    let val = "12345"; // Anything that can be converted into Vec<u8>
    let org_prop = Property::new_binary(PropertyCode::CorrelationData, val).unwrap();

    let prop = org_prop;

    assert_eq!(prop.property_code(), PropertyCode::CorrelationData);
    assert_eq!(prop.get_binary().map(|v| v.len()), Some(5));
    assert_eq!(prop.get_string_pair(), None);
}

#[test]
fn test_clone_property_binary() {
    let val = "12345"; // Anything that can be converted into Vec<u8>
    let org_prop = Property::new_binary(PropertyCode::CorrelationData, val).unwrap();

    let prop = org_prop.clone();

    assert_eq!(prop.property_code(), PropertyCode::CorrelationData);
    assert_eq!(prop.get_binary().map(|v| v.len()), Some(5));
    assert_eq!(prop.get_string_pair(), None);
    assert_eq!(prop.get_binary(), org_prop.get_binary());
}

#[test]
fn test_properties_default() {
    let props = Properties::default();

    assert!(props.is_empty());
    assert_eq!(props.len(), 0);

    // Empty list needs 1 byte for zero len byte
    assert_eq!(props.byte_len(), 1);
}

#[test]
fn test_properties_push() {
    let mut props = Properties::new();

    let val = 1;
    let prop = Property::new_int(PropertyCode::PayloadFormatIndicator, val).unwrap();

    props.push(prop).unwrap();

    assert_eq!(props.len(), 1);
    assert!(!props.is_empty());
}

#[test]
fn test_properties_push_val() {
    let mut props = Properties::new();

    props
        .push_val(PropertyCode::ResponseTopic, "responses/somewhere")
        .unwrap();

    assert!(!props.is_empty());
    assert_eq!(props.len(), 1);

    props
        .push_val(PropertyCode::CorrelationData, b"12345")
        .unwrap();
    assert_eq!(props.len(), 2);
}

#[test]
fn test_properties_get_int() {
    let code = PropertyCode::PayloadFormatIndicator;

    let mut props = Properties::new();

    let val = 1;
    let org_prop = Property::new_int(code, val).unwrap();

    props.push(org_prop).unwrap();

    let prop = props.get(code).unwrap();
    assert_eq!(prop.get_int().unwrap(), val);
}

#[test]
fn test_properties_multiple() {
    let code = PropertyCode::UserProperty;

    let mut props = Properties::new();

    props
        .push(Property::new_string_pair(code, "user0", "val0").unwrap())
        .unwrap();
    props
        .push(Property::new_string_pair(code, "user1", "val1").unwrap())
        .unwrap();
    props
        .push(Property::new_string_pair(code, "user2", "val2").unwrap())
        .unwrap();

    assert!(!props.is_empty());
    assert_eq!(props.len(), 3);

    assert_eq!(
        props.get_string_pair_at(code, 0).unwrap(),
        ("user0".to_string(), "val0".to_string())
    );
    assert_eq!(
        props.get_string_pair_at(code, 1).unwrap(),
        ("user1".to_string(), "val1".to_string())
    );
    assert_eq!(
        props.get_string_pair_at(code, 2).unwrap(),
        ("user2".to_string(), "val2".to_string())
    );

    assert_eq!(
        props.get_val::<(String, String)>(code),
        Some(("user0".to_string(), "val0".to_string()))
    );
    assert_eq!(
        props.get_val_at::<(String, String)>(code, 1),
        Some(("user1".to_string(), "val1".to_string()))
    );
    assert_eq!(
        props.get_val_at::<(String, String)>(code, 2),
        Some(("user2".to_string(), "val2".to_string()))
    );

    assert_eq!(props.get_string_pair_at(code, 3), None);
}

#[test]
fn test_properties_iterator() {
    let code = PropertyCode::UserProperty;

    let mut props = Properties::new();

    props.push_string_pair(code, "user0", "val0").unwrap();
    props.push_string_pair(code, "user1", "val1").unwrap();
    props.push_string_pair(code, "user2", "val2").unwrap();

    let mut it = props.iter(code).into_iter();

    assert_eq!(
        it.next().and_then(|prop| prop.get_string_pair()),
        Some(("user0".to_string(), "val0".to_string()))
    );
    assert_eq!(
        it.next().and_then(|prop| prop.get_string_pair()),
        Some(("user1".to_string(), "val1".to_string()))
    );
    assert_eq!(
        it.next().and_then(|prop| prop.get_string_pair()),
        Some(("user2".to_string(), "val2".to_string()))
    );

    assert_eq!(it.next().and_then(|prop| prop.get_string_pair()), None);
}

#[test]
fn test_properties_user_iterator() {
    let code = PropertyCode::UserProperty;

    let mut props = Properties::new();

    props.push_string_pair(code, "user0", "val0").unwrap();
    props.push_string_pair(code, "user1", "val1").unwrap();
    props.push_string_pair(code, "user2", "val2").unwrap();

    let mut it = props.user_iter().into_iter();

    assert_eq!(it.next(), Some(("user0".to_string(), "val0".to_string())));
    assert_eq!(it.next(), Some(("user1".to_string(), "val1".to_string())));
    assert_eq!(it.next(), Some(("user2".to_string(), "val2".to_string())));

    assert_eq!(it.next(), None);
}

#[test]
fn test_properties_user_find() {
    let code = PropertyCode::UserProperty;

    let mut props = Properties::new();

    props
        .push(Property::new_string_pair(code, "user0", "val0").unwrap())
        .unwrap();
    props
        .push(Property::new_string_pair(code, "user1", "val1").unwrap())
        .unwrap();
    props
        .push(Property::new_string_pair(code, "user2", "val2").unwrap())
        .unwrap();

    assert_eq!(Some("val0"), props.find_user_property("user0").as_deref());
    assert_eq!(Some("val1"), props.find_user_property("user1").as_deref());
    assert_eq!(Some("val2"), props.find_user_property("user2").as_deref());
    assert_eq!(None, props.find_user_property("user3"));
}

#[test]
fn test_properties_macro() {
    // Zero length
    let props = Properties::new();
    assert!(props.is_empty());

    // Some different properties
    let props = {
        let mut p = Properties::new();
        let _ = p.push_val(PropertyCode::ResponseTopic, "responses/somewhere");
        let _ = p.push_val(PropertyCode::CorrelationData, b"12345");
        let _ = p.push_val(PropertyCode::MaximumQos, 1);
        p
    };

    assert!(!props.is_empty());
    assert_eq!(3, props.len());
    assert_eq!(
        Some(b"12345".to_vec()),
        props.get_val::<Vec<u8>>(PropertyCode::CorrelationData)
    );

    let props = {
        let mut p = Properties::new();
        let _ = p.push_val(PropertyCode::SessionExpiryInterval, 60);
        p
    };

    assert_eq!(1, props.len());
    assert_eq!(
        Some(60),
        props.get_val::<i32>(PropertyCode::SessionExpiryInterval)
    );
}

// ----- Further cases -----

#[test]
fn property_type_mismatch_is_persistence_error() {
    let res = Property::new_string(PropertyCode::MaximumQos, "x");
    assert!(matches!(res, Err(Error::PersistenceError)));
    let res = Property::new_u32(PropertyCode::SubscriptionIdentifier, 5);
    assert!(matches!(res, Err(Error::PersistenceError)));
    let res = Property::new(PropertyCode::ResponseTopic, 5u32);
    assert!(res.is_err());
}

#[test]
fn property_code_table_and_types() {
    assert_eq!(PropertyCode::CorrelationData.value(), 9);
    assert_eq!(PropertyCode::new(4), None);
    assert_eq!(PropertyCode::new(42), Some(PropertyCode::SharedSubscriptionAvailable));
    assert_eq!(PropertyCode::SubscriptionIdentifier.property_type(), PropertyType::VariableByteInteger);
    assert_eq!(PropertyCode::UserProperty.type_of(), ValueType::Utf8StringPair);
    assert_eq!(PropertyType::try_from_u32(9).is_err(), true);
    assert_eq!(PropertyType::Utf8EncodedString.value(), 5);
}

#[test]
fn property_binary_accepts_string_argument() {
    let prop = Property::new(PropertyCode::CorrelationData, "abc").unwrap();
    assert_eq!(prop.get_binary(), Some(b"abc".to_vec()));
    let prop = Property::new(PropertyCode::CorrelationData, vec![1u8, 2, 3]).unwrap();
    assert_eq!(prop.get_binary(), Some(vec![1u8, 2, 3]));
    let prop = Property::new(PropertyCode::UserProperty, ("k", "v".to_string())).unwrap();
    assert_eq!(prop.get_string_pair(), Some(("k".to_string(), "v".to_string())));
    let prop = Property::new(PropertyCode::ReceiveMaximum, -1i16).unwrap();
    assert_eq!(prop.get_u16(), Some(0xFFFF));
}

#[test]
fn property_int_wraps_for_four_byte() {
    let prop = Property::new_int(PropertyCode::MessageExpiryInterval, -1).unwrap();
    assert_eq!(prop.get_u32(), Some(u32::MAX));
    assert_eq!(prop.get_int(), Some(-1));
    let prop = Property::new_u32(PropertyCode::MessageExpiryInterval, 7).unwrap();
    assert_eq!(prop.get::<u32>(), Some(7));
    let prop = Property::new_int(PropertyCode::SubscriptionIdentifier, 300).unwrap();
    assert_eq!(prop.get_u32(), None);
    assert_eq!(prop.get_int(), Some(300));
}

#[test]
fn properties_byte_len_counts_entries() {
    let mut props = Properties::new();
    props.push_byte(PropertyCode::PayloadFormatIndicator, 1).unwrap(); // 2
    props.push_u16(PropertyCode::ReceiveMaximum, 10).unwrap(); // 3
    props.push_u32(PropertyCode::MessageExpiryInterval, 10).unwrap(); // 5
    props.push_int(PropertyCode::SubscriptionIdentifier, 200).unwrap(); // 1 + 2
    props.push_string(PropertyCode::ContentType, "abc").unwrap(); // 1 + 2 + 3
    props.push_string_pair(PropertyCode::UserProperty, "k", "vv").unwrap(); // 1 + 2 + 1 + 2 + 2
    props.push_binary(PropertyCode::CorrelationData, vec![0u8; 4]).unwrap(); // 1 + 2 + 4
    assert_eq!(props.byte_len(), 2 + 3 + 5 + 3 + 6 + 8 + 7 + 1);
}

#[test]
fn properties_push_of_mismatch_leaves_list() {
    let mut props = Properties::new();
    assert!(props.push_u16(PropertyCode::MaximumQos, 1).is_err());
    assert!(props.push_string(PropertyCode::MaximumQos, "x").is_err());
    assert!(props.is_empty());
    props.push_val(PropertyCode::MaximumQos, 1u8).unwrap();
    props.clear();
    assert_eq!(props.len(), 0);
}

#[test]
fn properties_get_at_reads_back_pushes() {
    let mut props = Properties::new();
    props.push_int(PropertyCode::TopicAlias, 3).unwrap();
    props.push_string(PropertyCode::ReasonString, "why").unwrap();
    props.push_int(PropertyCode::TopicAlias, 4).unwrap();
    assert_eq!(props.get_int_at(PropertyCode::TopicAlias, 0), Some(3));
    assert_eq!(props.get_int_at(PropertyCode::TopicAlias, 1), Some(4));
    assert_eq!(props.get_int_at(PropertyCode::TopicAlias, 2), None);
    assert_eq!(props.get_string(PropertyCode::ReasonString), Some("why".to_string()));
    assert_eq!(props.get_binary(PropertyCode::CorrelationData), None);
    let copy = props.clone();
    assert_eq!(copy.len(), 3);
    assert_eq!(copy.get_int(PropertyCode::TopicAlias), Some(3));
}

#[test]
fn property_get_follows_its_type() {
    let p = Property::new_byte(PropertyCode::PayloadFormatIndicator, 1).unwrap();
    assert_eq!(p.type_of(), ValueType::U8);
    assert_eq!(p.get::<u8>(), Some(1));
    assert_eq!(p.get::<i32>(), Some(1));
    assert_eq!(p.get::<u16>(), None);
    assert_eq!(p.get::<u32>(), None);
    assert_eq!(p.get::<String>(), None);

    let p = Property::new_u32(PropertyCode::MessageExpiryInterval, 70000).unwrap();
    assert_eq!(p.type_of(), ValueType::U32);
    assert_eq!(p.get::<u32>(), Some(70000));
    assert_eq!(p.get::<i32>(), Some(70000));
    assert_eq!(p.get::<Vec<u8>>(), None);

    let p = Property::new_int(PropertyCode::SubscriptionIdentifier, 12).unwrap();
    assert_eq!(p.type_of(), ValueType::I32);
    assert_eq!(p.get::<i32>(), Some(12));
    assert_eq!(p.get::<u32>(), None);

    let p = Property::new_string(PropertyCode::AuthenticationMethod, "basic").unwrap();
    assert_eq!(p.get::<String>(), Some("basic".to_string()));
    assert_eq!(p.get::<i32>(), None);
    assert_eq!(p.get::<(String, String)>(), None);
}

#[test]
fn properties_len_counts_successful_pushes() {
    let mut props = Properties::new();
    assert!(props.push_int(PropertyCode::PayloadFormatIndicator, 1).is_ok());
    assert!(props.push_int(PropertyCode::PayloadFormatIndicator, 1000).is_err());
    assert!(props.push_string(PropertyCode::MessageExpiryInterval, "x").is_err());
    assert!(props.push_u32(PropertyCode::MessageExpiryInterval, 5).is_ok());
    assert!(props.push_val(PropertyCode::AuthenticationMethod, "m").is_ok());
    assert_eq!(props.len(), 3);
}
