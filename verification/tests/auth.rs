use axum::http::{HeaderMap, HeaderValue};
use jsexpert_stream::auth::{authenticate, header_value, Credentials, ProjectLookup};
use jsexpert_stream::domain::event::ProjectIdentity;
use jsexpert_stream::error::ApiError;

fn headers(entries: &[(&'static str, &[u8])]) -> HeaderMap {
    let mut map = HeaderMap::new();
    for (name, value) in entries {
        map.append(*name, HeaderValue::from_bytes(value).unwrap());
    }
    map
}

fn refused(headers: &HeaderMap) -> bool {
    matches!(Credentials::from_headers(headers), Err(ApiError::Unauthorized))
}

#[test]
fn credentials_are_read_from_their_headers() {
    let map = headers(&[("clientid", b"id-1"), ("clientsecret", b"s3cret x")]);
    let credentials = Credentials::from_headers(&map).unwrap();
    assert_eq!(credentials.client_id, "id-1");
    assert_eq!(credentials.client_secret, "s3cret x");
}

#[test]
fn header_names_do_not_depend_on_case() {
    let mut map = HeaderMap::new();
    map.insert(
        axum::http::HeaderName::from_bytes(b"clientId").unwrap(),
        HeaderValue::from_static("id"),
    );
    assert_eq!(header_value(&map, "clientid").unwrap(), "id");
}

#[test]
fn the_first_of_several_headers_counts() {
    let map = headers(&[("clientid", b"first"), ("clientid", b"second")]);
    assert_eq!(header_value(&map, "clientid").unwrap(), "first");
    let map = headers(&[("clientid", b""), ("clientid", b"second")]);
    assert!(header_value(&map, "clientid").is_err());
}

#[test]
fn missing_credentials_are_refused() {
    assert!(refused(&headers(&[])));
    assert!(refused(&headers(&[("clientid", b"id")])));
    assert!(refused(&headers(&[("clientsecret", b"secret")])));
    assert!(!refused(&headers(&[("clientid", b"id"), ("clientsecret", b"secret")])));
}

#[test]
fn empty_credentials_are_refused() {
    assert!(refused(&headers(&[("clientid", b""), ("clientsecret", b"secret")])));
    assert!(refused(&headers(&[("clientid", b"id"), ("clientsecret", b"")])));
}

#[test]
fn credentials_that_are_not_visible_text_are_refused() {
    assert!(refused(&headers(&[("clientid", b"\xffid"), ("clientsecret", b"secret")])));
    assert!(refused(&headers(&[("clientid", "\u{e9}".as_bytes()), ("clientsecret", b"s")])));
    assert!(!refused(&headers(&[("clientid", b"a\tb"), ("clientsecret", b"s")])));
}

#[test]
fn known_credentials_give_the_registered_identity() {
    let found = ProjectLookup::Found(ProjectIdentity {
        project_id: "p".into(),
        tenant_id: "t".into(),
    });
    let identity = authenticate(found).unwrap();
    assert_eq!(identity.project_id, "p");
    assert_eq!(identity.tenant_id, "t");
}

#[test]
fn unknown_credentials_are_unauthorized() {
    assert!(matches!(
        authenticate(ProjectLookup::NotFound),
        Err(ApiError::Unauthorized)
    ));
}

#[test]
fn a_failed_lookup_is_unavailable() {
    assert!(matches!(
        authenticate(ProjectLookup::Failed),
        Err(ApiError::Unavailable)
    ));
}
