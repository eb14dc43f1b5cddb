use coggle::api::{organization_verdict, validate_organization, DEFAULT_BASE_URL};
use coggle::text::percent_encode;
use coggle::{ApiOptions, CoggleApi, CoggleError, DiagramResource, Method, RequestBody};

fn client() -> CoggleApi {
    CoggleApi::new(&ApiOptions { base_url: Some("https://coggle.it".to_string()), token: "T".to_string() })
}

#[test]
fn new_uses_default_base_url() {
    let api = CoggleApi::new(&ApiOptions { base_url: None, token: "abc".to_string() });
    assert_eq!(api.base_url, DEFAULT_BASE_URL);
    assert_eq!(api.base_url, "https://coggle.it");
    assert_eq!(api.token, "abc");
}

#[test]
fn new_keeps_given_base_url() {
    let api = CoggleApi::new(&ApiOptions { base_url: Some("http://localhost:8080".to_string()), token: "k".to_string() });
    assert_eq!(api.base_url, "http://localhost:8080");
}

#[test]
fn url_appends_token_then_query() {
    let api = client();
    assert_eq!(api.url("/api/1/diagrams", "x=1"), "https://coggle.it/api/1/diagrams?access_token=T&x=1");
}

#[test]
fn ampersand_prefix_gives_same_url() {
    let api = client();
    assert_eq!(api.url("/e", "&x=1"), api.url("/e", "x=1"));
    assert_eq!(api.url("/e", "&x=1"), "https://coggle.it/e?access_token=T&x=1");
}

#[test]
fn empty_query_adds_nothing() {
    let api = client();
    assert_eq!(api.url("/e", ""), "https://coggle.it/e?access_token=T");
}

#[test]
fn verbs_carry_their_method_and_body() {
    let api = client();
    let g = api.get("/g", "");
    assert_eq!(g.method, Method::Get);
    assert!(matches!(g.body, RequestBody::NoBody));
    let d = api.delete("/d", "a=b");
    assert_eq!(d.method, Method::Delete);
    assert_eq!(d.url, "https://coggle.it/d?access_token=T&a=b");
    let p = api.post("/p", "", RequestBody::EmptyObject);
    assert_eq!(p.method, Method::Post);
    assert!(matches!(p.body, RequestBody::EmptyObject));
    let u = api.put("/u", "", RequestBody::EmptyObject);
    assert_eq!(u.method, Method::Put);
}

#[test]
fn list_diagrams_without_organization() {
    let api = client();
    let r = api.list_diagrams(None).unwrap();
    assert_eq!(r.method, Method::Get);
    assert_eq!(r.url, "https://coggle.it/api/1/diagrams?access_token=T");
    assert!(matches!(r.body, RequestBody::NoBody));
}

#[test]
fn list_diagrams_of_valid_organizations() {
    let api = client();
    let r = api.list_diagrams(Some("acme")).unwrap();
    assert_eq!(r.url, "https://coggle.it/api/1/organisations/acme/diagrams?access_token=T");
    for org in ["abc", "a-1", "ab9", "team-42", "zz-"] {
        assert!(api.list_diagrams(Some(org)).is_ok(), "{}", org);
    }
}

#[test]
fn list_diagrams_rejects_invalid_organizations() {
    let api = client();
    for org in ["", "ab", "a", "Abc", "aBc", "1abc", "-abc", "abc_d", "ab c", "ab."] {
        assert_eq!(api.list_diagrams(Some(org)).unwrap_err(), CoggleError::InvalidOrganizationName, "{}", org);
    }
}

#[test]
fn validate_organization_follows_pattern() {
    assert_eq!(validate_organization("abc"), Ok(()));
    assert_eq!(validate_organization("abC"), Err(CoggleError::InvalidOrganizationName));
}

#[test]
fn list_then_map_diagrams() {
    let api = client();
    let request = api.list_diagrams(None).unwrap();
    assert_eq!(request.url, "https://coggle.it/api/1/diagrams?access_token=T");
    let response = vec![DiagramResource { id: "d1".to_string(), title: "Plan".to_string() }];
    let diagrams = api.diagrams_from(&response);
    assert_eq!(diagrams.len(), 1);
    assert_eq!(diagrams[0].id, "d1");
    assert_eq!(diagrams[0].title, "Plan");
    assert_eq!(diagrams[0].web_url(), "https://coggle.it/diagram/d1");
}

#[test]
fn diagrams_from_keeps_order() {
    let api = client();
    let response = vec![
        DiagramResource { id: "a".to_string(), title: "A".to_string() },
        DiagramResource { id: "b".to_string(), title: "B".to_string() },
    ];
    let diagrams = api.diagrams_from(&response);
    assert_eq!(diagrams.len(), 2);
    assert_eq!(diagrams[0].id, "a");
    assert_eq!(diagrams[1].id, "b");
    assert_eq!(diagrams[1].api_client.token, "T");
    assert!(api.diagrams_from(&Vec::new()).is_empty());
}

#[test]
fn create_diagram_posts_title() {
    let api = client();
    let r = api.create_diagram("Roadmap");
    assert_eq!(r.method, Method::Post);
    assert_eq!(r.url, "https://coggle.it/api/1/diagrams?access_token=T");
    match r.body {
        RequestBody::NewDiagram { title } => assert_eq!(title, "Roadmap"),
        other => panic!("unexpected body {:?}", other),
    }
}

#[test]
fn error_messages() {
    assert_eq!(CoggleError::TextTooLong.message(), "Error: the text is too long.");
    assert_eq!(CoggleError::InvalidOrganizationName.message(), "Error: invalid organization name.");
}

#[test]
fn organization_verdict_accepts_only_a_match() {
    assert_eq!(organization_verdict(Some(true)), Ok(()));
    assert_eq!(organization_verdict(Some(false)), Err(CoggleError::InvalidOrganizationName));
    assert_eq!(organization_verdict(None), Err(CoggleError::InvalidOrganizationName));
}

#[test]
fn token_is_percent_encoded_in_url() {
    let api = CoggleApi::new(&ApiOptions { base_url: None, token: "a b/é&c".to_string() });
    assert_eq!(api.url("/e", "x=1"), "https://coggle.it/e?access_token=a%20b%2F%C3%A9%26c&x=1");
}

#[test]
fn percent_encode_keeps_unreserved() {
    assert_eq!(percent_encode("AZaz09-._~"), "AZaz09-._~");
    assert_eq!(percent_encode(""), "");
    assert_eq!(percent_encode("+=?#"), "%2B%3D%3F%23");
    assert_eq!(percent_encode("\u{7f}\u{1F600}"), "%7F%F0%9F%98%80");
}
