use poll_engine::freebox::FreeboxApiResponse;
use poll_engine::freebox::FreeboxBody;
use poll_engine::freebox::FreeboxCycle;
use poll_engine::freebox::FreeboxResponse;
use poll_engine::protocol::AuthFailure;
use poll_engine::protocol::DataFailure;
use poll_engine::protocol::FetchAction;
use poll_engine::protocol::FetchError;
use poll_engine::protocol::HttpMethod;
use poll_engine::protocol::ParseHint;
use poll_engine::table::AssocTable;
use poll_engine::table::FieldTable;
use poll_engine::table::FieldValue;

fn field_table(pairs: &[(&str, FieldValue)]) -> FieldTable {
    let mut t = AssocTable::new();
    for (k, v) in pairs {
        let copy = match v {
            FieldValue::Unsigned(n) => FieldValue::Unsigned(*n),
            FieldValue::Text(s) => FieldValue::Text(s.clone()),
        };
        t.insert((*k).to_string(), copy);
    }
    t
}

fn envelope(success: bool, pairs: &[(&str, FieldValue)]) -> FreeboxResponse {
    FreeboxResponse::Status {
        code: 200,
        body: FreeboxBody::Envelope(FreeboxApiResponse {
            success,
            result: Some(field_table(pairs)),
        }),
    }
}

fn handshake(cycle: &mut FreeboxCycle) {
    cycle
        .process_http_response(envelope(
            true,
            &[("challenge", FieldValue::Text("abc".to_string()))],
        ))
        .unwrap();
    cycle
        .process_http_response(envelope(
            true,
            &[("session_token", FieldValue::Text("tok".to_string()))],
        ))
        .unwrap();
}

#[test]
fn envelope_getters_read_named_values() {
    let env = FreeboxApiResponse {
        success: true,
        result: Some(field_table(&[
            ("type", FieldValue::Text("ftth".to_string())),
            ("bytes_up", FieldValue::Unsigned(10)),
            ("rate_down", FieldValue::Text("4400".to_string())),
        ])),
    };
    assert_eq!(env.get_string("type"), Some("ftth".to_string()));
    assert_eq!(env.get_string("bytes_up"), None);
    assert_eq!(env.get_u64("bytes_up"), Some(10));
    assert_eq!(env.get_u64("rate_down"), Some(4400));
    assert_eq!(env.get_u64("missing"), None);
    let empty = FreeboxApiResponse::new();
    assert_eq!(empty.get_string("type"), None);
}

#[test]
fn full_cycle_with_two_ports() {
    let mut cycle = FreeboxCycle::new(Some("app".to_string()), Some("secret".to_string()));
    assert_eq!(cycle.fetch(), FetchAction::Http);

    // Challenge retrieval.
    let challenge_plan = cycle.create_http_request().unwrap();
    assert_eq!(challenge_plan.method, HttpMethod::Get);
    assert_eq!(challenge_plan.path, "/api/v4/login/");
    cycle
        .process_http_response(envelope(
            true,
            &[("challenge", FieldValue::Text("abc".to_string()))],
        ))
        .unwrap();

    // Session exchange: the body carries the HMAC-derived proof.
    let exchange = cycle.create_http_request().unwrap();
    assert_eq!(exchange.method, HttpMethod::Post);
    assert_eq!(exchange.path, "/api/v4/login/session/");
    let body = exchange.body.clone().unwrap();
    assert_eq!(
        body,
        "{\"app_id\":\"app\",\"password\":\"694abd10842d161ddbc54df8a0d57cf64d0dbcc9\"}"
    );
    let length_header = exchange
        .headers
        .iter()
        .find(|h| h.0 == "Content-Length")
        .expect("content length set");
    assert_eq!(length_header.1, body.len().to_string());
    cycle
        .process_http_response(envelope(
            true,
            &[("session_token", FieldValue::Text("tok".to_string()))],
        ))
        .unwrap();

    // Data calls carry the token.
    let conn_plan = cycle.create_http_request().unwrap();
    assert_eq!(conn_plan.path, "/api/v4/connection/");
    assert_eq!(conn_plan.hint, ParseHint::Envelope);
    assert!(conn_plan
        .headers
        .iter()
        .any(|h| h.0 == "X-Fbx-App-Auth" && h.1 == "tok"));

    cycle
        .process_http_response(envelope(
            true,
            &[
                ("type", FieldValue::Text("ftth".to_string())),
                ("bytes_up", FieldValue::Unsigned(10)),
            ],
        ))
        .unwrap();
    cycle
        .process_http_response(envelope(
            true,
            &[("board_name", FieldValue::Text("fbx".to_string()))],
        ))
        .unwrap();

    // Discovery: two ports on the switch.
    let discovery = cycle.create_http_request().unwrap();
    assert_eq!(discovery.path, "/api/v4/switch/status/");
    assert_eq!(discovery.hint, ParseHint::SwitchList);
    let action = cycle
        .process_http_response(FreeboxResponse::Status {
            code: 200,
            body: FreeboxBody::SwitchList(vec![
                field_table(&[
                    ("id", FieldValue::Unsigned(1)),
                    ("link", FieldValue::Text("up".to_string())),
                ]),
                field_table(&[
                    ("id", FieldValue::Unsigned(2)),
                    ("link", FieldValue::Text("down".to_string())),
                ]),
            ]),
        })
        .unwrap();
    assert_eq!(action, FetchAction::Http);

    // Port statistics, highest index first.
    let port2 = cycle.create_http_request().unwrap();
    assert_eq!(port2.path, "/api/v4/switch/port/2/stats");
    cycle
        .process_http_response(envelope(
            true,
            &[("rx_good_bytes", FieldValue::Unsigned(22))],
        ))
        .unwrap();
    let port1 = cycle.create_http_request().unwrap();
    assert_eq!(port1.path, "/api/v4/switch/port/1/stats");
    assert!(cycle.latest().is_none());
    let action = cycle
        .process_http_response(envelope(
            true,
            &[("rx_good_bytes", FieldValue::Unsigned(11))],
        ))
        .unwrap();
    assert_eq!(action, FetchAction::Done);

    // The snapshot appears atomically at the terminal tag.
    let snap = cycle.latest().expect("snapshot published");
    assert_eq!(
        snap.connection().get("type"),
        Some(&FieldValue::Text("ftth".to_string()))
    );
    assert_eq!(
        snap.system().get("board_name"),
        Some(&FieldValue::Text("fbx".to_string()))
    );
    let port_one_status = snap.switch().get("1").expect("port 1 status");
    assert_eq!(
        port_one_status.get("link"),
        Some(&FieldValue::Text("up".to_string()))
    );
    let port_two_stats = snap.ports().get("2").expect("port 2 stats");
    assert_eq!(
        port_two_stats.get("rx_good_bytes"),
        Some(&FieldValue::Unsigned(22))
    );
}

#[test]
fn zero_ports_completes_after_discovery() {
    let mut cycle = FreeboxCycle::new(Some("app".to_string()), Some("secret".to_string()));
    cycle.fetch();
    handshake(&mut cycle);
    cycle.process_http_response(envelope(true, &[])).unwrap();
    cycle.process_http_response(envelope(true, &[])).unwrap();
    let action = cycle
        .process_http_response(FreeboxResponse::Status {
            code: 200,
            body: FreeboxBody::SwitchList(Vec::new()),
        })
        .unwrap();
    assert_eq!(action, FetchAction::Done);
    let snap = cycle.latest().expect("snapshot published");
    assert_eq!(snap.ports().entry_count(), 0);
}

#[test]
fn rejected_envelope_aborts_without_publishing() {
    let mut cycle = FreeboxCycle::new(Some("app".to_string()), Some("secret".to_string()));
    cycle.fetch();
    handshake(&mut cycle);
    let err = cycle
        .process_http_response(envelope(false, &[]))
        .unwrap_err();
    assert_eq!(err, FetchError::Data(DataFailure::Rejected));
    assert!(cycle.latest().is_none());
}

#[test]
fn missing_challenge_field_is_an_auth_error() {
    let mut cycle = FreeboxCycle::new(Some("app".to_string()), Some("secret".to_string()));
    cycle.fetch();
    let err = cycle
        .process_http_response(envelope(true, &[]))
        .unwrap_err();
    assert_eq!(err, FetchError::Auth(AuthFailure::MissingChallenge));
}

#[test]
fn missing_token_field_is_an_auth_error() {
    let mut cycle = FreeboxCycle::new(Some("app".to_string()), Some("secret".to_string()));
    cycle.fetch();
    cycle
        .process_http_response(envelope(
            true,
            &[("challenge", FieldValue::Text("abc".to_string()))],
        ))
        .unwrap();
    let err = cycle
        .process_http_response(envelope(true, &[]))
        .unwrap_err();
    assert_eq!(err, FetchError::Auth(AuthFailure::MissingToken));
}

#[test]
fn missing_credentials_stop_the_exchange() {
    let mut cycle = FreeboxCycle::new(None, None);
    cycle.fetch();
    cycle
        .process_http_response(envelope(
            true,
            &[("challenge", FieldValue::Text("abc".to_string()))],
        ))
        .unwrap();
    let err = match cycle.create_http_request() {
        Ok(_) => panic!("expected an error"),
        Err(e) => e,
    };
    assert_eq!(err, FetchError::Auth(AuthFailure::MissingCredential));
}

#[test]
fn freebox_authorization_failure_resumes_at_the_same_tag() {
    let mut cycle = FreeboxCycle::new(Some("app".to_string()), Some("secret".to_string()));
    cycle.fetch();
    handshake(&mut cycle);
    // Connection step done: the cycle stands at the system tag.
    cycle.process_http_response(envelope(true, &[])).unwrap();
    assert_eq!(
        cycle.create_http_request().unwrap().path,
        "/api/v4/system/"
    );

    // The session expired mid-cycle.
    let action = cycle
        .process_http_response(FreeboxResponse::Status {
            code: 401,
            body: FreeboxBody::Malformed,
        })
        .unwrap();
    assert_eq!(action, FetchAction::Http);
    // Both challenge and token are gone: the full handshake runs again.
    assert_eq!(
        cycle.create_http_request().unwrap().path,
        "/api/v4/login/"
    );
    handshake(&mut cycle);

    // The sequence resumes where it stood; it does not restart.
    assert_eq!(
        cycle.create_http_request().unwrap().path,
        "/api/v4/system/"
    );
}

#[test]
fn switch_port_without_identifier_is_dropped() {
    let mut cycle = FreeboxCycle::new(Some("app".to_string()), Some("secret".to_string()));
    cycle.fetch();
    handshake(&mut cycle);
    cycle.process_http_response(envelope(true, &[])).unwrap();
    cycle.process_http_response(envelope(true, &[])).unwrap();
    cycle
        .process_http_response(FreeboxResponse::Status {
            code: 200,
            body: FreeboxBody::SwitchList(vec![
                field_table(&[("link", FieldValue::Text("up".to_string()))]),
                field_table(&[("id", FieldValue::Unsigned(1))]),
            ]),
        })
        .unwrap();
    // Only the identified port entered the category; the tail still has
    // two calls because the discovery counted both objects.
    assert_eq!(
        cycle.create_http_request().unwrap().path,
        "/api/v4/switch/port/2/stats"
    );
    cycle.process_http_response(envelope(true, &[])).unwrap();
    cycle.process_http_response(envelope(true, &[])).unwrap();
    let snap = cycle.latest().expect("snapshot published");
    assert_eq!(snap.switch().entry_count(), 1);
    assert!(snap.switch().get("1").is_some());
}

#[test]
fn malformed_data_body_aborts() {
    let mut cycle = FreeboxCycle::new(Some("app".to_string()), Some("secret".to_string()));
    cycle.fetch();
    handshake(&mut cycle);
    let err = cycle
        .process_http_response(FreeboxResponse::Status {
            code: 200,
            body: FreeboxBody::Malformed,
        })
        .unwrap_err();
    assert_eq!(err, FetchError::Data(DataFailure::Malformed));
    assert!(cycle.latest().is_none());
}

#[test]
fn unexpected_status_is_a_protocol_error() {
    let mut cycle = FreeboxCycle::new(Some("app".to_string()), Some("secret".to_string()));
    cycle.fetch();
    handshake(&mut cycle);
    let err = cycle
        .process_http_response(FreeboxResponse::Status {
            code: 503,
            body: FreeboxBody::Malformed,
        })
        .unwrap_err();
    assert_eq!(err, FetchError::Protocol(503));
    assert!(cycle.latest().is_none());
}
