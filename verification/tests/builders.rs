use bytes::Bytes;
use conformance::{
    AuthScheme, ParamReplacement, RequestSource, RequestSpec, ResponseSpec, StatusClass,
    TestAuthorization,
};

#[test]
fn empty_is_the_base_case() {
    let spec = RequestSpec::empty();
    assert!(matches!(spec.source, RequestSource::Empty));
    assert!(!spec.bad);
    assert!(spec.auth.is_none());
    assert!(spec.params.is_empty());
}

#[test]
fn from_example_keeps_media_type_and_name() {
    let spec = RequestSpec::from_example("text/csv", "rows");
    match &spec.source {
        RequestSource::Example { media_type, name } => {
            assert_eq!(media_type, "text/csv");
            assert_eq!(name, "rows");
        }
        other => panic!("unexpected source {:?}", other),
    }
    assert!(!spec.bad);
    assert!(spec.auth.is_none());
    assert!(spec.params.is_empty());
}

#[test]
fn from_json_example_fixes_the_media_type() {
    let spec = RequestSpec::from_json_example("create-widget");
    match &spec.source {
        RequestSource::Example { media_type, name } => {
            assert_eq!(media_type, "application/json");
            assert_eq!(name, "create-widget");
        }
        other => panic!("unexpected source {:?}", other),
    }
    assert!(!spec.bad);
}

#[test]
fn from_bad_raw_is_always_bad() {
    let spec = RequestSpec::from_bad_raw(Bytes::from("{not json"));
    assert!(spec.bad);
    match &spec.source {
        RequestSource::Raw(bytes) => assert_eq!(&bytes[..], b"{not json"),
        other => panic!("unexpected source {:?}", other),
    }
    assert!(RequestSpec::from_bad_raw(Bytes::new()).bad);
    assert!(RequestSpec::from_bad_raw(Bytes::from_static(b"{\"valid\":true}")).bad);
    assert!(spec.auth.is_none());
    assert!(spec.params.is_empty());
}

#[test]
fn with_auth_attaches_a_copy_and_keeps_the_rest() {
    let auth = TestAuthorization::api_key_header("key", "X-Api-Key", "k-1");
    let spec = RequestSpec::from_bad_raw(Bytes::from("x")).add_param("a", "1").with_auth(&auth);
    let attached = spec.auth.as_ref().unwrap();
    assert_eq!(attached.name, "key");
    assert_eq!(attached.credential, "k-1");
    assert!(matches!(&attached.scheme, AuthScheme::ApiKeyHeader { header } if header == "X-Api-Key"));
    assert!(spec.bad);
    assert_eq!(spec.params.len(), 1);
    assert_eq!(auth.name, "key");
}

#[test]
fn add_param_appends_in_order() {
    let spec = RequestSpec::empty().add_param("a", "1").add_param("b", "2").add_param("a", "3");
    let pairs: Vec<(String, String)> =
        spec.params.iter().map(|p| (p.name.clone(), p.value.clone())).collect();
    assert_eq!(
        pairs,
        vec![
            ("a".to_string(), "1".to_string()),
            ("b".to_string(), "2".to_string()),
            ("a".to_string(), "3".to_string()),
        ]
    );
    assert!(!spec.bad);
}

#[test]
fn builders_leave_a_clone_untouched() {
    let base = RequestSpec::empty().add_param("a", "1");
    let more = base.clone().add_param("b", "2");
    assert_eq!(base.params.len(), 1);
    assert_eq!(more.params.len(), 2);
}

#[test]
fn param_replacement_is_an_opaque_pair() {
    let p = ParamReplacement::new("", "");
    assert_eq!(p.name, "");
    assert_eq!(p.value, "");
    let q = ParamReplacement::new("na me", "v\u{e9}");
    assert_eq!(q.name, "na me");
    assert_eq!(q.value, "v\u{e9}");
}

#[test]
fn authorization_headers_and_query_parameters() {
    let bearer = TestAuthorization::bearer("user", "tok");
    assert_eq!(bearer.header(), Some(("Authorization".to_string(), "Bearer tok".to_string())));
    assert_eq!(bearer.query(), None);
    let header = TestAuthorization::api_key_header("k", "X-Key", "v");
    assert_eq!(header.header(), Some(("X-Key".to_string(), "v".to_string())));
    assert_eq!(header.query(), None);
    let query = TestAuthorization::api_key_query("k", "key", "v");
    assert_eq!(query.header(), None);
    assert_eq!(query.query(), Some(("key".to_string(), "v".to_string())));
}

#[test]
fn status_classes_span_a_hundred_codes() {
    assert!(StatusClass::ClientError.contains(400));
    assert!(StatusClass::ClientError.contains(499));
    assert!(!StatusClass::ClientError.contains(399));
    assert!(!StatusClass::ClientError.contains(500));
    assert!(StatusClass::Success.contains(200));
    assert!(StatusClass::Success.contains(299));
    assert!(!StatusClass::Success.contains(300));
    assert!(StatusClass::Informational.contains(100));
    assert!(!StatusClass::Informational.contains(99));
    assert!(StatusClass::Redirection.contains(302));
    assert!(StatusClass::ServerError.contains(599));
    assert!(!StatusClass::ServerError.contains(600));
    assert!(StatusClass::ClientError.error());
    assert!(StatusClass::ServerError.error());
    assert!(!StatusClass::Success.error());
    assert!(!StatusClass::Redirection.error());
    assert!(!StatusClass::Informational.error());
}

#[test]
fn only_error_classes_suit_a_bad_request() {
    assert!(ResponseSpec::client_error().suits_bad_request());
    assert!(ResponseSpec::from_class(StatusClass::ServerError).suits_bad_request());
    assert!(!ResponseSpec::from_class(StatusClass::Success).suits_bad_request());
    assert!(!ResponseSpec::from_status(400).suits_bad_request());
    assert!(!ResponseSpec::from_json_example(400, "bad-request").suits_bad_request());
}
