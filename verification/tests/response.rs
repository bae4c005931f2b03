use runime::handler::healthcheck_handler;
use runime::model::QuoteModelResponse;
use runime::response::{
    ApiResponse, Envelope, BAD_REQUEST, INTERNAL_SERVER_ERROR, NOT_FOUND, NO_CONTENT, OK,
};

#[test]
fn the_codes_are_the_http_codes() {
    assert_eq!(OK, 200);
    assert_eq!(NO_CONTENT, 204);
    assert_eq!(BAD_REQUEST, 400);
    assert_eq!(NOT_FOUND, 404);
    assert_eq!(INTERNAL_SERVER_ERROR, 500);
}

#[test]
fn healthcheck_reports_success() {
    let r = healthcheck_handler();
    assert_eq!(r.code, 200);
    assert_eq!(
        r.body,
        Envelope::Text("This is the runime API reporting back in full health!".to_string())
    );
    assert_eq!(r.body.status(), Some("success"));
}

#[test]
fn each_envelope_has_its_status() {
    let wire = QuoteModelResponse {
        id: "1".to_string(),
        quote: "q".to_string(),
        category: "c".to_string(),
        anime: "a".to_string(),
        character: "ch".to_string(),
    };
    assert_eq!(Envelope::Empty.status(), None);
    assert_eq!(Envelope::Text("t".to_string()).status(), Some("success"));
    assert_eq!(Envelope::Quote(wire).status(), Some("success"));
    assert_eq!(Envelope::Fail("m".to_string()).status(), Some("fail"));
    assert_eq!(Envelope::Error("m".to_string()).status(), Some("error"));
}

#[test]
fn conflict_is_400_with_the_fixed_message() {
    assert_eq!(
        ApiResponse::conflict(),
        ApiResponse { code: 400, body: Envelope::Fail("Quote already exists".to_string()) }
    );
}

#[test]
fn not_found_is_404_and_names_the_id() {
    assert_eq!(
        ApiResponse::not_found(999999),
        ApiResponse {
            code: 404,
            body: Envelope::Fail("Quote with ID: 999999 not found".to_string())
        }
    );
    assert_eq!(
        ApiResponse::not_found(-2).body,
        Envelope::Fail("Quote with ID: -2 not found".to_string())
    );
}

#[test]
fn no_content_is_204_without_body() {
    assert_eq!(ApiResponse::no_content(), ApiResponse { code: 204, body: Envelope::Empty });
}

#[test]
fn internal_error_is_500_with_the_message() {
    assert_eq!(
        ApiResponse::internal_error("PoolTimedOut".to_string()),
        ApiResponse { code: 500, body: Envelope::Error("PoolTimedOut".to_string()) }
    );
}

#[test]
fn write_failure_puts_the_prefix_before_the_detail() {
    assert_eq!(
        ApiResponse::write_failure("pool timed out"),
        ApiResponse {
            code: 500,
            body: Envelope::Error("Internal server error: pool timed out".to_string())
        }
    );
    assert_eq!(
        ApiResponse::write_failure("").body,
        Envelope::Error("Internal server error: ".to_string())
    );
}

#[test]
fn text_and_quote_are_200() {
    let wire = QuoteModelResponse {
        id: "1".to_string(),
        quote: "q".to_string(),
        category: "c".to_string(),
        anime: "a".to_string(),
        character: "ch".to_string(),
    };
    assert_eq!(ApiResponse::text("hi".to_string()).code, 200);
    assert_eq!(ApiResponse::quote(wire.clone()), ApiResponse { code: 200, body: Envelope::Quote(wire) });
}
