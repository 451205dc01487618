use poll_engine::deye::has_sentinel;
use poll_engine::deye::DeyeCycle;
use poll_engine::deye::DeyeResponse;
use poll_engine::deye::DeyeSolarData;
use poll_engine::protocol::DataFailure;
use poll_engine::protocol::FetchAction;
use poll_engine::protocol::FetchError;
use poll_engine::protocol::HttpMethod;
use poll_engine::protocol::ScrapedField;

fn sample_document() -> String {
    [
        "<html><body>",
        "var webdata_sn = \"X1\";",
        "var webdata_now_p = \"120\";",
        "var webdata_today_e = \"3.4\";",
        "var webdata_total_e = \"500.1\";",
        "var cover_sta_ssid = \"home\";",
        "var cover_sta_rssi = \"80%\";",
        "var status_c = \"ok\";",
        "</body></html>",
    ]
    .join("\n")
}

#[test]
fn parses_the_sample_document() {
    let d = DeyeSolarData::parse(&sample_document()).unwrap();
    assert_eq!(d.serial_number, "X1");
    assert_eq!(d.current_power, 120);
    assert_eq!(d.yield_today, "3.4");
    assert_eq!(d.total_yield, "500.1");
    assert_eq!(d.wireless_router_ssid, "home");
    assert_eq!(d.wireless_signal_quality, 80);
}

#[test]
fn missing_serial_line_is_named() {
    let doc = sample_document().replace("var webdata_sn = \"X1\";\n", "");
    assert_eq!(
        DeyeSolarData::parse(&doc),
        Err(ScrapedField::SerialNumber)
    );
}

#[test]
fn missing_rssi_line_is_named() {
    let doc = sample_document().replace("var cover_sta_rssi = \"80%\";\n", "");
    assert_eq!(
        DeyeSolarData::parse(&doc),
        Err(ScrapedField::SignalQuality)
    );
}

#[test]
fn rssi_without_percent_terminator_is_missing() {
    let doc = sample_document().replace(
        "var cover_sta_rssi = \"80%\";",
        "var cover_sta_rssi = \"80\";",
    );
    assert_eq!(
        DeyeSolarData::parse(&doc),
        Err(ScrapedField::SignalQuality)
    );
}

#[test]
fn the_last_assignment_wins() {
    let doc = format!("{}\nvar webdata_sn = \"X2\";", sample_document());
    let d = DeyeSolarData::parse(&doc).unwrap();
    assert_eq!(d.serial_number, "X2");
}

#[test]
fn serial_is_trimmed_and_carriage_returns_are_stripped() {
    let doc = sample_document()
        .replace("var webdata_sn = \"X1\";", "var webdata_sn = \"X1  \";")
        .replace('\n', "\r\n");
    let d = DeyeSolarData::parse(&doc).unwrap();
    assert_eq!(d.serial_number, "X1");
}

#[test]
fn unreadable_numbers_fall_back_to_zero() {
    let doc = sample_document()
        .replace("var webdata_now_p = \"120\";", "var webdata_now_p = \"12x\";")
        .replace(
            "var cover_sta_rssi = \"80%\";",
            "var cover_sta_rssi = \"999%\";",
        );
    let d = DeyeSolarData::parse(&doc).unwrap();
    assert_eq!(d.current_power, 0);
    assert_eq!(d.wireless_signal_quality, 0);
}

#[test]
fn sentinel_detection() {
    assert!(has_sentinel(&sample_document()));
    assert!(!has_sentinel("var webdata_sn = \"X1\";\n"));
}

#[test]
fn document_cycle_publishes_once() {
    let mut cycle = DeyeCycle::new();
    assert_eq!(cycle.fetch(), FetchAction::Http);
    let plan = cycle.create_http_request();
    assert_eq!(plan.method, HttpMethod::Get);
    assert_eq!(plan.path, "/status.html");
    let action = cycle
        .process_http_response(DeyeResponse::Status {
            code: 200,
            www_authenticate: false,
            body: Some(sample_document()),
        })
        .unwrap();
    assert_eq!(action, FetchAction::Done);
    let latest = cycle.latest().expect("snapshot published");
    assert_eq!(latest.serial_number, "X1");
    assert_eq!(latest.current_power, 120);
}

#[test]
fn failed_parse_publishes_nothing() {
    let mut cycle = DeyeCycle::new();
    cycle.fetch();
    let err = cycle
        .process_http_response(DeyeResponse::Status {
            code: 200,
            www_authenticate: false,
            body: Some("<html></html>".to_string()),
        })
        .unwrap_err();
    assert_eq!(
        err,
        FetchError::Data(DataFailure::MissingField(ScrapedField::SerialNumber))
    );
    assert!(cycle.latest().is_none());
}

#[test]
fn protocol_error_publishes_nothing() {
    let mut cycle = DeyeCycle::new();
    cycle.fetch();
    let err = cycle
        .process_http_response(DeyeResponse::Status {
            code: 503,
            www_authenticate: false,
            body: None,
        })
        .unwrap_err();
    assert_eq!(err, FetchError::Protocol(503));
    assert!(cycle.latest().is_none());
}

#[test]
fn challenge_from_transport_credentials_is_retried() {
    let mut cycle = DeyeCycle::new();
    cycle.fetch();
    let action = cycle
        .process_http_response(DeyeResponse::Status {
            code: 401,
            www_authenticate: true,
            body: None,
        })
        .unwrap();
    assert_eq!(action, FetchAction::Http);
    let err = cycle
        .process_http_response(DeyeResponse::Status {
            code: 401,
            www_authenticate: false,
            body: None,
        })
        .unwrap_err();
    assert_eq!(err, FetchError::Protocol(401));
}

#[test]
fn deye_canceled_transport_ends_quietly() {
    let mut cycle = DeyeCycle::new();
    cycle.fetch();
    let action = cycle.process_http_response(DeyeResponse::Canceled).unwrap();
    assert_eq!(action, FetchAction::Done);
    assert!(cycle.latest().is_none());
}
