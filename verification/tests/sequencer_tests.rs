use poll_engine::protocol::HttpMethod;
use poll_engine::sequencer::BBoxFetchState;
use poll_engine::sequencer::FreeboxFetchState;

#[test]
fn bbox_static_chain_is_fixed() {
    // The full cycle walks the same six tags whatever the responses hold.
    let mut tag = BBoxFetchState::default();
    let mut paths: Vec<String> = Vec::new();
    while tag != BBoxFetchState::End {
        let (method, path) = tag.call().expect("non-terminal tags have a call");
        assert_eq!(method, HttpMethod::Get);
        paths.push(path);
        tag = tag.next_state();
    }
    assert_eq!(
        paths,
        vec![
            "/api/v1/device/cpu".to_string(),
            "/api/v1/device/mem".to_string(),
            "/api/v1/wan/ip/stats".to_string(),
            "/api/v1/lan/stats".to_string(),
            "/api/v1/wireless/24/stats".to_string(),
            "/api/v1/wireless/5/stats".to_string(),
        ]
    );
}

#[test]
fn bbox_terminal_tag_has_no_call() {
    assert!(BBoxFetchState::End.call().is_none());
    assert_eq!(BBoxFetchState::End.next_state(), BBoxFetchState::End);
}

#[test]
fn freebox_prefix_paths() {
    assert_eq!(
        FreeboxFetchState::Connection.call().unwrap().1,
        "/api/v4/connection/".to_string()
    );
    assert_eq!(
        FreeboxFetchState::System.call().unwrap().1,
        "/api/v4/system/".to_string()
    );
    assert_eq!(
        FreeboxFetchState::SwitchStatus.call().unwrap().1,
        "/api/v4/switch/status/".to_string()
    );
    assert_eq!(
        FreeboxFetchState::SwitchPort(7).call().unwrap().1,
        "/api/v4/switch/port/7/stats".to_string()
    );
    assert_eq!(
        FreeboxFetchState::SwitchPort(12).call().unwrap().1,
        "/api/v4/switch/port/12/stats".to_string()
    );
    assert!(FreeboxFetchState::End.call().is_none());
}

#[test]
fn freebox_dynamic_tail_descends_inclusive() {
    // A discovered count of three yields ports 3, 2, 1 and then the end.
    let mut tag = FreeboxFetchState::SwitchStatus.next_state(3);
    let mut ports: Vec<u8> = Vec::new();
    while let FreeboxFetchState::SwitchPort(p) = tag {
        ports.push(p);
        tag = tag.next_state(3);
    }
    assert_eq!(ports, vec![3, 2, 1]);
    assert_eq!(tag, FreeboxFetchState::End);
}

#[test]
fn freebox_dynamic_tail_single_port() {
    let tag = FreeboxFetchState::SwitchStatus.next_state(1);
    assert_eq!(tag, FreeboxFetchState::SwitchPort(1));
    assert_eq!(tag.next_state(1), FreeboxFetchState::End);
}

#[test]
fn freebox_zero_count_is_immediately_terminal() {
    assert_eq!(
        FreeboxFetchState::SwitchStatus.next_state(0),
        FreeboxFetchState::End
    );
}

#[test]
fn freebox_count_is_ignored_on_static_transitions() {
    assert_eq!(
        FreeboxFetchState::Connection.next_state(0),
        FreeboxFetchState::System
    );
    assert_eq!(
        FreeboxFetchState::Connection.next_state(9),
        FreeboxFetchState::System
    );
    assert_eq!(
        FreeboxFetchState::System.next_state(200),
        FreeboxFetchState::SwitchStatus
    );
}
