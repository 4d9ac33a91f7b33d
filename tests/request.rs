use eightfish::request::EightFishRequest;

struct UserId;

impl typemap::Key for UserId {
    type Value = u64;
}

#[test]
fn request_keeps_its_parts() {
    let r = EightFishRequest::new(
        "post".to_string(),
        "/person/new".to_string(),
        Some("{\"name\":\"a\"}".to_string()),
    );
    assert_eq!(r.method(), "post");
    assert_eq!(r.path(), "/person/new");
    assert_eq!(r.data(), &Some("{\"name\":\"a\"}".to_string()));
    assert_eq!(r.ext().map.len(), 0);
}

#[test]
fn request_property_bag_holds_typed_values() {
    let mut r = EightFishRequest::new("get".to_string(), "/person/list".to_string(), None);
    assert!(r.data().is_none());
    r.ext_mut().map.insert::<UserId>(7);
    assert_eq!(r.ext().map.get::<UserId>(), Some(&7));
    assert_eq!(r.ext().map.len(), 1);
    assert_eq!(r.method(), "get");
}
