use paho_mqtt::string_collection::{NameValueCollection, StringCollection};

#[test]
fn string_collection_test_default() {
    let sc = StringCollection::default();
    assert_eq!(0, sc.len());
}

#[test]
fn string_collection_test_new() {
    let v = ["string0", "string1", "string2"];
    let n = v.len();

    let sc = StringCollection::new(&v);

    assert_eq!(n, sc.len());
    assert_eq!(n, sc.coll.len());

    assert_eq!(v[0].as_bytes(), sc.coll[0].as_bytes());
    assert_eq!(v[1].as_bytes(), sc.coll[1].as_bytes());
    assert_eq!(v[2].as_bytes(), sc.coll[2].as_bytes());
}

#[test]
fn string_collection_test_new_from_vec_strings() {
    let v = vec!["string0".to_string(), "string1".to_string(), "string2".to_string()];
    let n = v.len();

    let refs: Vec<&str> = v.iter().map(|s| s.as_str()).collect();
    let sc = StringCollection::new(&refs);

    assert_eq!(n, sc.len());
    assert_eq!(n, sc.coll.len());

    assert_eq!(v[0].as_bytes(), sc.coll[0].as_bytes());
    assert_eq!(v[1].as_bytes(), sc.coll[1].as_bytes());
    assert_eq!(v[2].as_bytes(), sc.coll[2].as_bytes());
}

#[test]
fn string_collection_test_assign() {
    let v = ["string0", "string1", "string2"];
    let n = v.len();

    let org_sc = StringCollection::new(&v);

    let sc = org_sc;

    assert_eq!(n, sc.len());
    assert_eq!(n, sc.coll.len());

    assert_eq!(v[0].as_bytes(), sc.coll[0].as_bytes());
    assert_eq!(v[1].as_bytes(), sc.coll[1].as_bytes());
    assert_eq!(v[2].as_bytes(), sc.coll[2].as_bytes());
}

#[test]
fn string_collection_test_clone() {
    let v = ["string0", "string1", "string2"];
    let n = v.len();

    let sc = {
        let org_sc = StringCollection::new(&v);
        org_sc.clone()
    };

    assert_eq!(n, sc.len());
    assert_eq!(n, sc.coll.len());

    assert_eq!(v[0].as_bytes(), sc.coll[0].as_bytes());
    assert_eq!(v[1].as_bytes(), sc.coll[1].as_bytes());
    assert_eq!(v[2].as_bytes(), sc.coll[2].as_bytes());
}

#[test]
fn name_value_test_default() {
    let sc = NameValueCollection::default();
    assert_eq!(0, sc.len());
}

#[test]
fn name_value_test_new() {
    let v = [("name0", "val0"), ("name1", "val1"), ("name2", "val2")];
    let n = v.len();

    let sc = NameValueCollection::new(&v);

    assert_eq!(n, sc.len());
    assert_eq!(n, sc.coll.len());

    assert_eq!(v[0].0.as_bytes(), sc.coll[0].0.as_bytes());
    assert_eq!(v[0].1.as_bytes(), sc.coll[0].1.as_bytes());

    assert_eq!(v[1].0.as_bytes(), sc.coll[1].0.as_bytes());
    assert_eq!(v[1].1.as_bytes(), sc.coll[1].1.as_bytes());

    assert_eq!(v[2].0.as_bytes(), sc.coll[2].0.as_bytes());
    assert_eq!(v[2].1.as_bytes(), sc.coll[2].1.as_bytes());
}

#[test]
fn name_value_test_new_from_vec_strings() {
    let v = vec![
        ("name0".to_string(), "val0".to_string()),
        ("name1".to_string(), "val1".to_string()),
        ("name2".to_string(), "val2".to_string()),
    ];
    let n = v.len();

    let refs: Vec<(&str, &str)> = v.iter().map(|(a, b)| (a.as_str(), b.as_str())).collect();
    let sc = NameValueCollection::new(&refs);

    assert_eq!(n, sc.len());
    assert_eq!(n, sc.coll.len());

    assert_eq!(v[0].0.as_bytes(), sc.coll[0].0.as_bytes());
    assert_eq!(v[0].1.as_bytes(), sc.coll[0].1.as_bytes());

    assert_eq!(v[1].0.as_bytes(), sc.coll[1].0.as_bytes());
    assert_eq!(v[1].1.as_bytes(), sc.coll[1].1.as_bytes());

    assert_eq!(v[2].0.as_bytes(), sc.coll[2].0.as_bytes());
    assert_eq!(v[2].1.as_bytes(), sc.coll[2].1.as_bytes());
}

#[test]
fn name_value_test_assign() {
    let v = [("name0", "val0"), ("name1", "val1"), ("name2", "val2")];
    let n = v.len();

    let org_sc = NameValueCollection::new(&v);

    let sc = org_sc;

    assert_eq!(n, sc.len());
    assert_eq!(n, sc.coll.len());

    assert_eq!(v[0].0.as_bytes(), sc.coll[0].0.as_bytes());
    assert_eq!(v[0].1.as_bytes(), sc.coll[0].1.as_bytes());

    assert_eq!(v[1].0.as_bytes(), sc.coll[1].0.as_bytes());
    assert_eq!(v[1].1.as_bytes(), sc.coll[1].1.as_bytes());

    assert_eq!(v[2].0.as_bytes(), sc.coll[2].0.as_bytes());
    assert_eq!(v[2].1.as_bytes(), sc.coll[2].1.as_bytes());
}

#[test]
fn name_value_test_clone() {
    let v = [("name0", "val0"), ("name1", "val1"), ("name2", "val2")];
    let n = v.len();

    let sc = {
        let org_sc = NameValueCollection::new(&v);
        org_sc.clone()
    };

    assert_eq!(n, sc.len());
    assert_eq!(n, sc.coll.len());

    assert_eq!(v[0].0.as_bytes(), sc.coll[0].0.as_bytes());
    assert_eq!(v[0].1.as_bytes(), sc.coll[0].1.as_bytes());

    assert_eq!(v[1].0.as_bytes(), sc.coll[1].0.as_bytes());
    assert_eq!(v[1].1.as_bytes(), sc.coll[1].1.as_bytes());

    assert_eq!(v[2].0.as_bytes(), sc.coll[2].0.as_bytes());
    assert_eq!(v[2].1.as_bytes(), sc.coll[2].1.as_bytes());
}
