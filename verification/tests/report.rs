use auth_test::engine::Stage;
use auth_test::http::{Header, HttpResponse, REQUEST_TIMEOUT_SECONDS};
use auth_test::model::ProtocolError;
use auth_test::protocol::{authenticate, frame_guest_body, frame_login_body};
use auth_test::report::failure_message;

#[test]
fn stages_have_names() {
    assert_eq!(Stage::Login.name(), "login");
    assert_eq!(Stage::Verification.name(), "site listing");
    assert_eq!(Stage::GuestAuthorization.name(), "guest authorization");
}

#[test]
fn failures_are_told_by_stage_and_cause() {
    assert_eq!(
        failure_message(Stage::Login, &ProtocolError::AuthRejected { status: 400 }),
        "login: Authentication failed with status 400"
    );
    assert_eq!(
        failure_message(Stage::Login, &ProtocolError::MissingSession),
        "login: No cookies received from server"
    );
    assert_eq!(
        failure_message(Stage::Verification, &ProtocolError::HttpRejected { status: 401 }),
        "site listing: Sites API responded with status 401"
    );
    assert_eq!(
        failure_message(Stage::GuestAuthorization, &ProtocolError::HttpRejected { status: 503 }),
        "guest authorization: Guest auth API responded with status 503"
    );
    assert_eq!(
        failure_message(
            Stage::Verification,
            &ProtocolError::ApiError { message: "api.err.LoginRequired".to_string() }
        ),
        "site listing: UniFi API error: api.err.LoginRequired"
    );
    assert_eq!(
        failure_message(
            Stage::GuestAuthorization,
            &ProtocolError::ApiError { message: "Unknown error".to_string() }
        ),
        "guest authorization: UniFi API error: Unknown error"
    );
    assert_eq!(
        failure_message(Stage::Verification, &ProtocolError::DecodeError),
        "site listing: Response body is not the expected JSON envelope"
    );
    assert_eq!(
        failure_message(
            Stage::Login,
            &ProtocolError::TransportError { message: "connection refused".to_string() }
        ),
        "login: connection refused"
    );
}

#[test]
fn failure_message_writes_any_status() {
    assert_eq!(
        failure_message(Stage::Login, &ProtocolError::AuthRejected { status: 0 }),
        "login: Authentication failed with status 0"
    );
    assert_eq!(
        failure_message(Stage::Login, &ProtocolError::HttpRejected { status: 65535 }),
        "login: Authentication failed with status 65535"
    );
}

#[test]
fn errors_copy_and_compare() {
    let errors = vec![
        ProtocolError::TransportError { message: "t".to_string() },
        ProtocolError::AuthRejected { status: 403 },
        ProtocolError::MissingSession,
        ProtocolError::HttpRejected { status: 500 },
        ProtocolError::ApiError { message: "a".to_string() },
        ProtocolError::DecodeError,
    ];
    for (i, error) in errors.iter().enumerate() {
        assert_eq!(&error.clone(), error);
        for (j, other) in errors.iter().enumerate() {
            assert_eq!(error == other, i == j);
        }
    }
}

#[test]
fn bodies_are_framed_around_literals() {
    assert_eq!(
        frame_login_body("\"u\"", "\"p\""),
        "{\"username\":\"u\",\"password\":\"p\"}"
    );
    assert_eq!(frame_login_body("", ""), "{\"username\":,\"password\":}");
    assert_eq!(
        frame_guest_body("\"m\"", 0, "\"n\"", "\"e\""),
        "{\"cmd\":\"authorize-guest\",\"mac\":\"m\",\"minutes\":0,\"name\":\"n\",\"email\":\"e\"}"
    );
    assert_eq!(
        frame_guest_body("1", 4294967295, "2", "3"),
        "{\"cmd\":\"authorize-guest\",\"mac\":1,\"minutes\":4294967295,\"name\":2,\"email\":3}"
    );
}

#[test]
fn cookies_with_attributes_are_told() {
    let login = |cookie: &str| {
        authenticate(&HttpResponse {
            status: 200,
            headers: vec![Header { name: "Set-Cookie".to_string(), value: cookie.to_string() }],
            body: Vec::new(),
        })
        .unwrap()
    };
    assert!(!login("unifises=abc123").carries_attributes());
    assert!(!login("").carries_attributes());
    assert!(login("unifises=abc123; Path=/; Secure").carries_attributes());
    assert!(login(";").carries_attributes());
    assert_eq!(login("a=b; Path=/").cookie(), "a=b; Path=/");
    assert_eq!(login("a=b").clone(), login("a=b"));
}

#[test]
fn requests_time_out_after_thirty_seconds() {
    assert_eq!(REQUEST_TIMEOUT_SECONDS, 30);
}
