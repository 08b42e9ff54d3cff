use jsexpert_stream::error::ApiError;

#[test]
fn unauthorized_is_answered_with_401() {
    let response = ApiError::Unauthorized.into_response();
    assert_eq!(response.status, 401);
    assert_eq!(response.error, "missing or invalid project credentials");
}

#[test]
fn bad_requests_are_answered_with_400_and_the_fault() {
    let response = ApiError::BadRequest("payload must not be null".into()).into_response();
    assert_eq!(response.status, 400);
    assert_eq!(response.error, "invalid event: payload must not be null");
}

#[test]
fn refusals_carry_their_text_as_json() {
    let body = ApiError::BadRequest("say \"why\"".into()).into_response().body();
    assert_eq!(body.to_string(), "{\"error\":\"invalid event: say \\\"why\\\"\"}");
    assert!(!body.is_null());
}

#[test]
fn unavailable_is_answered_with_503() {
    let response = ApiError::Unavailable.into_response();
    assert_eq!(response.status, 503);
    assert_eq!(response.error, "event pipeline is temporarily unavailable");
    assert_eq!(ApiError::Unavailable.to_string(), response.error);
}
