use paho_mqtt::subscribe_options::{RetainHandling, SubscribeOptions, SubscribeOptionsBuilder};

#[test]
fn subscribe_options_test_default() {
    let opts = SubscribeOptions::default();

    assert!(!opts.no_local());
    assert!(!opts.retain_as_published());
    assert_eq!(opts.retain_handling(), RetainHandling::default());

    assert!(opts.copts.noLocal == 0);
    assert!(opts.copts.retainAsPublished == 0);
    assert!(opts.copts.retainHandling == 0);
}

#[test]
fn subscribe_options_test_new() {
    let opts = SubscribeOptions::new(false, false, None);

    assert!(!opts.no_local());
    assert!(!opts.retain_as_published());
    assert_eq!(opts.retain_handling(), RetainHandling::default());

    assert!(opts.copts.noLocal == 0);
    assert!(opts.copts.retainAsPublished == 0);
    assert!(opts.copts.retainHandling == 0);

    let opts = SubscribeOptions::new(true, false, None);

    assert!(opts.no_local());
    assert!(!opts.retain_as_published());
    assert_eq!(opts.retain_handling(), RetainHandling::default());

    assert!(opts.copts.noLocal != 0);
    assert!(opts.copts.retainAsPublished == 0);
    assert!(opts.copts.retainHandling == 0);

    let opts = SubscribeOptions::new(true, true, None);

    assert!(opts.no_local());
    assert!(opts.retain_as_published());
    assert_eq!(opts.retain_handling(), RetainHandling::default());

    assert!(opts.copts.noLocal != 0);
    assert!(opts.copts.retainAsPublished != 0);
    assert!(opts.copts.retainHandling == 0);

    let opts = SubscribeOptions::new(true, true, RetainHandling::SendRetainedOnNew);

    assert!(opts.no_local());
    assert!(opts.retain_as_published());
    assert_eq!(opts.retain_handling(), RetainHandling::SendRetainedOnNew);

    assert!(opts.copts.noLocal != 0);
    assert!(opts.copts.retainAsPublished != 0);
    assert!(opts.copts.retainHandling == RetainHandling::SendRetainedOnNew as u8);
}

#[test]
fn test_with() {
    let opts = SubscribeOptions::with_no_local();

    assert!(opts.no_local());
    assert!(!opts.retain_as_published());
    assert_eq!(opts.retain_handling(), RetainHandling::default());

    let opts = SubscribeOptions::with_retain_as_published();

    assert!(!opts.no_local());
    assert!(opts.retain_as_published());
    assert_eq!(opts.retain_handling(), RetainHandling::default());

    let opts = SubscribeOptions::with_retain_handling(RetainHandling::SendRetainedOnNew);

    assert!(!opts.no_local());
    assert!(!opts.retain_as_published());
    assert_eq!(opts.retain_handling(), RetainHandling::SendRetainedOnNew);
}

#[test]
fn test_from_tuple_one() {
    let opts = SubscribeOptions::from(true);

    assert!(opts.no_local());
    assert!(!opts.retain_as_published());
    assert_eq!(opts.retain_handling(), RetainHandling::default());
}

#[test]
fn test_from_tuple_two() {
    let opts = SubscribeOptions::from((true, true));

    assert!(opts.no_local());
    assert!(opts.retain_as_published());
    assert_eq!(opts.retain_handling(), RetainHandling::default());
}

#[test]
fn test_from_tuple_three() {
    let opts = SubscribeOptions::from((true, true, RetainHandling::SendRetainedOnNew));

    assert!(opts.no_local());
    assert!(opts.retain_as_published());
    assert_eq!(opts.retain_handling(), RetainHandling::SendRetainedOnNew);
}

#[test]
fn subscribe_options_test_builder_default() {
    let opts = SubscribeOptionsBuilder::new().finalize();

    assert!(!opts.no_local());
    assert!(!opts.retain_as_published());
    assert_eq!(opts.retain_handling(), RetainHandling::default());
}

#[test]
fn test_builder_no_local() {
    let opts = SubscribeOptionsBuilder::new().no_local(true).finalize();

    assert!(opts.no_local());
    assert!(!opts.retain_as_published());
    assert_eq!(opts.retain_handling(), RetainHandling::default());
}

#[test]
fn test_builder_retain_as_published() {
    let opts = SubscribeOptionsBuilder::new()
        .retain_as_published(true)
        .finalize();

    assert!(!opts.no_local());
    assert!(opts.retain_as_published());
    assert_eq!(opts.retain_handling(), RetainHandling::default());
}

#[test]
fn test_builder_retain_handling() {
    let opts = SubscribeOptionsBuilder::new()
        .retain_handling(RetainHandling::DontSendRetained)
        .finalize();

    assert!(!opts.no_local());
    assert!(!opts.retain_as_published());
    assert_eq!(opts.retain_handling(), RetainHandling::DontSendRetained);
}

// ----- Further cases -----

#[test]
fn retain_handling_conversions() {
    assert_eq!(RetainHandling::try_from_i32(2).unwrap(), RetainHandling::DontSendRetained);
    assert!(RetainHandling::try_from_i32(3).is_err());
    assert_eq!(RetainHandling::SendRetainedOnNew.to_string(), "Send Retain on New");
    let opts = SubscribeOptions::from(Some(true));
    assert!(opts.no_local());
    let mut bad = SubscribeOptions::default();
    bad.copts.retainHandling = 9;
    assert_eq!(bad.retain_handling(), RetainHandling::SendRetainedOnSubscribe);
    assert_eq!(&SubscribeOptions::default().copts.struct_id, b"MQSO");
}

#[test]
fn builder_keeps_last_setting() {
    let mut b = SubscribeOptionsBuilder::new();
    b.no_local(true).retain_handling(RetainHandling::DontSendRetained).no_local(false);
    b.retain_as_published(true);
    let o = b.finalize();
    assert!(!o.no_local());
    assert!(o.retain_as_published());
    assert_eq!(o.retain_handling(), RetainHandling::DontSendRetained);
    let o2 = b.finalize();
    assert_eq!(o2.no_local(), o.no_local());
    assert_eq!(o2.retain_handling(), o.retain_handling());
}
