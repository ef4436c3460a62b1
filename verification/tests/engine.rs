use auth_test::engine::{
    action_for, advance, Action, Engine, Event, RunConfig, Stage, State, EXIT_FAILURE, EXIT_SUCCESS,
};
use auth_test::http::{Header, HttpRequest, HttpResponse, Method};
use auth_test::model::{Credentials, Endpoint, ProtocolError, Site};
use auth_test::protocol::authenticate;

const SITES_BODY: &str =
    r#"{"meta":{"rc":"ok"},"data":[{"_id":"1","name":"default","desc":"Default"}]}"#;

fn config(test_mac: Option<&str>) -> RunConfig {
    RunConfig {
        endpoint: Endpoint::new("unifi.example.net".to_string(), 8443, false).unwrap(),
        credentials: Credentials::new("testadmin".to_string(), "s3cret".to_string()),
        site: "default".to_string(),
        test_mac: test_mac.map(|mac| mac.to_string()),
    }
}

fn answer(status: u16, cookie: Option<&str>, body: &str) -> Event {
    let mut headers = vec![Header {
        name: "content-type".to_string(),
        value: "application/json".to_string(),
    }];
    if let Some(cookie) = cookie {
        headers.push(Header { name: "set-cookie".to_string(), value: cookie.to_string() });
    }
    Event::Response(HttpResponse { status, headers, body: body.as_bytes().to_vec() })
}

/// Drives a run the way a caller does, answering each request with the next
/// event of `answers`. Returns the requests that were sent, the engine at the
/// end, and the exit code.
fn drive(config: RunConfig, answers: Vec<Event>) -> (Vec<HttpRequest>, Engine, u8) {
    let mut answers = answers.into_iter();
    let mut sent = Vec::new();
    let mut engine = Engine::new(config);
    let mut action = engine.action();
    for _ in 0..16 {
        let event = match action {
            Action::Send(request) => {
                sent.push(request);
                answers.next().expect("a request was sent that the test has no answer for")
            }
            Action::Finish => Event::Finished,
            Action::Exit { code } => return (sent, engine, code),
        };
        let (next, then) = engine.step(event);
        engine = next;
        action = then;
    }
    panic!("the run did not end");
}

fn default_site() -> Site {
    Site { id: "1".to_string(), name: "default".to_string(), description: "Default".to_string() }
}

#[test]
fn scenario_login_and_one_site() {
    let (sent, engine, code) = drive(
        config(None),
        vec![answer(200, Some("unifises=abc123"), ""), answer(200, None, SITES_BODY)],
    );
    assert_eq!(code, 0);
    assert_eq!(engine.exit_code(), Some(0));
    assert_eq!(
        engine.state(),
        &State::Done { sites: vec![default_site()], guest_authorized: false }
    );
    assert_eq!(sent.len(), 2);
    assert_eq!(sent[0].method, Method::Post);
    assert_eq!(sent[0].url, "https://unifi.example.net:8443/api/login");
    assert_eq!(sent[1].method, Method::Get);
    assert_eq!(sent[1].url, "https://unifi.example.net:8443/api/self/sites");
    assert_eq!(
        sent[1].headers,
        vec![Header { name: "Cookie".to_string(), value: "unifises=abc123".to_string() }]
    );
}

#[test]
fn scenario_login_rejected() {
    let (sent, engine, code) = drive(config(Some("aa:bb:cc:dd:ee:ff")), vec![answer(400, None, "")]);
    assert_ne!(code, 0);
    assert_eq!(code, EXIT_FAILURE);
    assert_eq!(
        engine.state(),
        &State::Failed { stage: Stage::Login, error: ProtocolError::AuthRejected { status: 400 } }
    );
    assert_eq!(sent.len(), 1);
}

#[test]
fn scenario_login_without_cookie() {
    let (sent, engine, code) = drive(config(None), vec![answer(200, None, "")]);
    assert_ne!(code, 0);
    assert_eq!(
        engine.state(),
        &State::Failed { stage: Stage::Login, error: ProtocolError::MissingSession }
    );
    assert_eq!(sent.len(), 1);
}

#[test]
fn scenario_sites_call_refused_by_the_api() {
    let (sent, engine, code) = drive(
        config(Some("aa:bb:cc:dd:ee:ff")),
        vec![
            answer(200, Some("unifises=abc123"), ""),
            answer(200, None, r#"{"meta":{"rc":"error","msg":"api.err.LoginRequired"}}"#),
        ],
    );
    assert_ne!(code, 0);
    assert_eq!(
        engine.state(),
        &State::Failed {
            stage: Stage::Verification,
            error: ProtocolError::ApiError { message: "api.err.LoginRequired".to_string() },
        }
    );
    assert_eq!(sent.len(), 2);
}

#[test]
fn scenario_guest_authorized_without_payload() {
    let (sent, engine, code) = drive(
        config(Some("aa:bb:cc:dd:ee:ff")),
        vec![
            answer(200, Some("unifises=abc123"), ""),
            answer(200, None, SITES_BODY),
            answer(200, None, r#"{"meta":{"rc":"ok"}}"#),
        ],
    );
    assert_eq!(code, EXIT_SUCCESS);
    assert_eq!(
        engine.state(),
        &State::Done { sites: vec![default_site()], guest_authorized: true }
    );
    assert_eq!(sent.len(), 3);
    assert_eq!(sent[2].method, Method::Post);
    assert_eq!(sent[2].url, "https://unifi.example.net:8443/api/s/default/cmd/stamgr");
    assert_eq!(
        sent[2].headers,
        vec![
            Header { name: "Cookie".to_string(), value: "unifises=abc123".to_string() },
            Header { name: "Content-Type".to_string(), value: "application/json".to_string() },
        ]
    );
    assert_eq!(
        sent[2].body,
        Some(
            "{\"cmd\":\"authorize-guest\",\"mac\":\"aa:bb:cc:dd:ee:ff\",\"minutes\":60,\
             \"name\":\"Test Guest\",\"email\":\"test@example.com\"}"
                .to_string()
        )
    );
}

#[test]
fn login_is_judged_alike_for_every_account_and_endpoint() {
    let accounts = [("testadmin", "s3cret"), ("", ""), ("root", "p\"w\\d"), ("ü", "pässwört")];
    let endpoints = [("unifi.example.net", 8443u16), ("10.0.0.1", 1), ("[::1]", 65535)];
    for (username, password) in accounts {
        for (host, port) in endpoints {
            for insecure in [false, true] {
                let make = || RunConfig {
                    endpoint: Endpoint::new(host.to_string(), port, insecure).unwrap(),
                    credentials: Credentials::new(username.to_string(), password.to_string()),
                    site: "default".to_string(),
                    test_mac: None,
                };
                let (engine, _) = Engine::new(make()).step(answer(200, Some("k=v"), ""));
                assert!(matches!(engine.state(), State::Authenticated { session } if session.cookie() == "k=v"));
                let (engine, action) = Engine::new(make()).step(answer(200, None, ""));
                assert_eq!(
                    engine.state(),
                    &State::Failed { stage: Stage::Login, error: ProtocolError::MissingSession }
                );
                assert_eq!(action, Action::Exit { code: 1 });
                let (engine, action) = Engine::new(make()).step(answer(401, Some("k=v"), ""));
                assert_eq!(
                    engine.state(),
                    &State::Failed {
                        stage: Stage::Login,
                        error: ProtocolError::AuthRejected { status: 401 },
                    }
                );
                assert_eq!(action, Action::Exit { code: 1 });
            }
        }
    }
}

#[test]
fn guest_stage_runs_only_with_a_mac() {
    let answers = || vec![answer(200, Some("c=1"), ""), answer(200, None, SITES_BODY)];
    let (sent, engine, code) = drive(config(None), answers());
    assert_eq!(sent.len(), 2);
    assert!(sent.iter().all(|request| !request.url.contains("/cmd/stamgr")));
    assert_eq!(code, 0);
    assert_eq!(
        engine.state(),
        &State::Done { sites: vec![default_site()], guest_authorized: false }
    );

    let mut with_guest = answers();
    with_guest.push(answer(200, None, r#"{"meta":{"rc":"ok"}}"#));
    let (sent, _, code) = drive(config(Some("aa:bb:cc:dd:ee:ff")), with_guest);
    assert_eq!(sent.len(), 3);
    assert!(sent[2].url.ends_with("/cmd/stamgr"));
    assert_eq!(code, 0);
}

#[test]
fn mac_does_not_change_the_earlier_stages() {
    let cases: Vec<Vec<Event>> = vec![
        vec![answer(500, Some("c=1"), "")],
        vec![answer(204, None, "")],
        vec![answer(200, Some("c=1"), ""), answer(404, None, SITES_BODY)],
        vec![answer(200, Some("c=1"), ""), answer(200, None, "oops")],
        vec![answer(200, Some("c=1"), ""), answer(200, None, r#"{"meta":{"rc":"error"}}"#)],
    ];
    for case in cases {
        let copy: Vec<Event> = case
            .iter()
            .map(|event| match event {
                Event::Response(r) => Event::Response(HttpResponse {
                    status: r.status,
                    headers: r
                        .headers
                        .iter()
                        .map(|h| Header { name: h.name.clone(), value: h.value.clone() })
                        .collect(),
                    body: r.body.clone(),
                }),
                _ => unreachable!(),
            })
            .collect();
        let (sent_without, without, code_without) = drive(config(None), case);
        let (sent_with, with, code_with) = drive(config(Some("aa:bb:cc:dd:ee:ff")), copy);
        assert_eq!(sent_without, sent_with);
        assert_eq!(without.state(), with.state());
        assert_eq!(code_without, 1);
        assert_eq!(code_with, 1);
    }
}

#[test]
fn guest_failure_fails_the_run_at_its_stage() {
    let (sent, engine, code) = drive(
        config(Some("aa:bb:cc:dd:ee:ff")),
        vec![
            answer(200, Some("c=1"), ""),
            answer(200, None, SITES_BODY),
            answer(200, None, r#"{"meta":{"rc":"error","msg":"api.err.InvalidPayload"}}"#),
        ],
    );
    assert_eq!(code, 1);
    assert_eq!(sent.len(), 3);
    assert_eq!(
        engine.state(),
        &State::Failed {
            stage: Stage::GuestAuthorization,
            error: ProtocolError::ApiError { message: "api.err.InvalidPayload".to_string() },
        }
    );
}

#[test]
fn transport_failure_fails_the_stage_that_waited() {
    let failure = || Event::TransportFailure { message: "operation timed out".to_string() };
    let error = || ProtocolError::TransportError { message: "operation timed out".to_string() };

    let (sent, engine, code) = drive(config(None), vec![failure()]);
    assert_eq!((sent.len(), code), (1, 1));
    assert_eq!(engine.state(), &State::Failed { stage: Stage::Login, error: error() });

    let (sent, engine, code) = drive(config(None), vec![answer(200, Some("c=1"), ""), failure()]);
    assert_eq!((sent.len(), code), (2, 1));
    assert_eq!(engine.state(), &State::Failed { stage: Stage::Verification, error: error() });

    let (sent, engine, code) = drive(
        config(Some("aa:bb:cc:dd:ee:ff")),
        vec![answer(200, Some("c=1"), ""), answer(200, None, SITES_BODY), failure()],
    );
    assert_eq!((sent.len(), code), (3, 1));
    assert_eq!(engine.state(), &State::Failed { stage: Stage::GuestAuthorization, error: error() });
}

#[test]
fn states_follow_one_another() {
    let engine = Engine::new(config(Some("aa:bb:cc:dd:ee:ff")));
    assert_eq!(engine.state(), &State::Unauthenticated);
    assert_eq!(engine.exit_code(), None);
    assert!(matches!(engine.action(), Action::Send(_)));

    let (engine, action) = engine.step(answer(200, Some("c=1"), ""));
    assert!(matches!(engine.state(), State::Authenticated { session } if session.cookie() == "c=1"));
    assert!(matches!(action, Action::Send(ref r) if r.url.ends_with("/api/self/sites")));

    let (engine, action) = engine.step(answer(200, None, SITES_BODY));
    assert!(matches!(engine.state(), State::Verified { sites, .. } if sites == &vec![default_site()]));
    assert!(matches!(action, Action::Send(ref r) if r.url.ends_with("/api/s/default/cmd/stamgr")));
    assert_eq!(engine.exit_code(), None);

    let (engine, action) = engine.step(answer(200, None, r#"{"meta":{"rc":"ok"},"data":[]}"#));
    assert_eq!(engine.state(), &State::GuestAuthorized { sites: vec![default_site()] });
    assert_eq!(action, Action::Finish);
    assert_eq!(engine.exit_code(), None);

    let (engine, action) = engine.step(Event::Finished);
    assert_eq!(engine.state(), &State::Done { sites: vec![default_site()], guest_authorized: true });
    assert_eq!(action, Action::Exit { code: 0 });
    assert_eq!(engine.exit_code(), Some(0));
    assert_eq!(engine.config(), &config(Some("aa:bb:cc:dd:ee:ff")));
}

#[test]
fn final_states_take_no_event() {
    let cfg = config(Some("aa:bb:cc:dd:ee:ff"));
    let done = || State::Done { sites: vec![default_site()], guest_authorized: true };
    let failed = || State::Failed { stage: Stage::Login, error: ProtocolError::MissingSession };
    let events = || {
        vec![
            answer(200, Some("c=1"), SITES_BODY),
            Event::TransportFailure { message: "reset".to_string() },
            Event::Finished,
        ]
    };
    for event in events() {
        assert_eq!(advance(&cfg, done(), event), done());
    }
    for event in events() {
        assert_eq!(advance(&cfg, failed(), event), failed());
    }
    assert_eq!(action_for(&cfg, &done()), Action::Exit { code: 0 });
    assert_eq!(action_for(&cfg, &failed()), Action::Exit { code: 1 });
}

#[test]
fn events_that_answer_nothing_are_passed_over() {
    let with_mac = config(Some("aa:bb:cc:dd:ee:ff"));
    let without_mac = config(None);
    assert_eq!(advance(&with_mac, State::Unauthenticated, Event::Finished), State::Unauthenticated);

    let session = || authenticate(&HttpResponse {
        status: 200,
        headers: vec![Header { name: "Set-Cookie".to_string(), value: "c=1".to_string() }],
        body: Vec::new(),
    })
    .unwrap();
    let authenticated = || State::Authenticated { session: session() };
    assert_eq!(advance(&with_mac, authenticated(), Event::Finished), authenticated());

    let verified = || State::Verified { session: session(), sites: vec![default_site()] };
    assert_eq!(advance(&with_mac, verified(), Event::Finished), verified());
    assert_eq!(
        advance(&without_mac, verified(), answer(200, None, r#"{"meta":{"rc":"ok"}}"#)),
        verified()
    );
    assert_eq!(
        advance(&without_mac, verified(), Event::TransportFailure { message: "x".to_string() }),
        verified()
    );
    assert_eq!(action_for(&without_mac, &verified()), Action::Finish);
    assert_eq!(
        advance(&without_mac, verified(), Event::Finished),
        State::Done { sites: vec![default_site()], guest_authorized: false }
    );

    let authorized = || State::GuestAuthorized { sites: Vec::new() };
    assert_eq!(advance(&with_mac, authorized(), answer(500, None, "")), authorized());
    assert_eq!(
        advance(&with_mac, authorized(), Event::TransportFailure { message: "x".to_string() }),
        authorized()
    );
    assert_eq!(
        advance(&with_mac, authorized(), Event::Finished),
        State::Done { sites: Vec::new(), guest_authorized: true }
    );
}
