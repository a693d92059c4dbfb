use kubecore::client::{
    classify_stream_failure, classify_watch_line, handle_api_errors, split_channel_frame,
    Error as ClientError, IoFailure, LineBuffer, LineParse,
};
use kubecore::lease::{
    Elector, LeaseSpec, LeaseState, ReleaseStep, TryAcquireStep,
};
use kubecore::meta::Status;
use kubecore::upgrade::{
    derive_accept_key, get_subprotocol, sec_websocket_key, verify_response, StreamProtocol,
    UpgradeConnectionError, UpgradeRequestHeaders, UpgradeResponse,
};
use kubecore::watcher::WireEvent;

fn ok_response(key: &str, protocol: &str) -> UpgradeResponse {
    UpgradeResponse {
        code: 101,
        upgrade: Some("websocket".to_owned()),
        connection: Some("Upgrade".to_owned()),
        accept: Some(derive_accept_key(key.as_bytes())),
        protocol: Some(protocol.to_owned()),
    }
}

#[test]
fn accept_key_matches_rfc6455_vector() {
    assert_eq!(
        derive_accept_key(b"dGhlIHNhbXBsZSBub25jZQ=="),
        "s3pPLMBiTxaQ9kYGzzhZRbK+xOo="
    );
}

#[test]
fn websocket_key_is_24_base64_chars() {
    let key = sec_websocket_key();
    assert_eq!(key.len(), 24);
    assert!(key.ends_with('='));
}

#[test]
fn upgrade_verification_happy_paths() {
    let key = sec_websocket_key();
    let v4 = verify_response(&ok_response(&key, "v4.channel.k8s.io"), &key).unwrap();
    assert_eq!(v4, StreamProtocol::V4);
    assert!(!v4.supports_stream_close());
    let v5 = verify_response(&ok_response(&key, "v5.channel.k8s.io"), &key).unwrap();
    assert_eq!(v5, StreamProtocol::V5);
    assert!(v5.supports_stream_close());
    assert_eq!(v4.as_str(), "v4.channel.k8s.io");
    assert_eq!(v5.as_bytes(), b"v5.channel.k8s.io");
}

#[test]
fn upgrade_verification_failures_in_order() {
    let key = sec_websocket_key();
    let mut res = ok_response(&key, "v4.channel.k8s.io");
    res.code = 200;
    assert_eq!(
        verify_response(&res, &key).unwrap_err(),
        UpgradeConnectionError::ProtocolSwitch(200)
    );

    let mut res = ok_response(&key, "v4.channel.k8s.io");
    res.upgrade = Some("h2c".to_owned());
    assert_eq!(
        verify_response(&res, &key).unwrap_err(),
        UpgradeConnectionError::MissingUpgradeWebSocketHeader
    );

    let mut res = ok_response(&key, "v4.channel.k8s.io");
    res.connection = None;
    assert_eq!(
        verify_response(&res, &key).unwrap_err(),
        UpgradeConnectionError::MissingConnectionUpgradeHeader
    );

    let mut res = ok_response(&key, "v4.channel.k8s.io");
    res.accept = Some("bogus".to_owned());
    assert_eq!(
        verify_response(&res, &key).unwrap_err(),
        UpgradeConnectionError::SecWebSocketAcceptKeyMismatch
    );

    let mut res = ok_response(&key, "v4.channel.k8s.io");
    res.protocol = Some("v9.channel.k8s.io".to_owned());
    assert_eq!(
        verify_response(&res, &key).unwrap_err(),
        UpgradeConnectionError::SecWebSocketProtocolMismatch
    );
    assert!(get_subprotocol(&res).is_none());
}

#[test]
fn upgrade_headers_case_insensitive() {
    let key = sec_websocket_key();
    let mut res = ok_response(&key, "v4.channel.k8s.io");
    res.upgrade = Some("WebSocket".to_owned());
    res.connection = Some("upgrade".to_owned());
    assert!(verify_response(&res, &key).is_ok());
}

#[test]
fn upgrade_request_headers() {
    let mut headers = UpgradeRequestHeaders::new("KEY".to_owned());
    assert_eq!(headers.connection, "Upgrade");
    assert_eq!(headers.upgrade, "websocket");
    assert_eq!(headers.sec_websocket_version, "13");
    StreamProtocol::add_to_exec_headers(&mut headers);
    assert_eq!(
        headers.sec_websocket_protocol,
        vec!["v5.channel.k8s.io".to_owned(), "v4.channel.k8s.io".to_owned()]
    );
    StreamProtocol::add_to_portforward_headers(&mut headers);
    assert_eq!(headers.sec_websocket_protocol, vec!["v4.channel.k8s.io".to_owned()]);
}

#[test]
fn channel_frames_split_on_first_byte() {
    let frame = [1u8, b'h', b'i', b'\n'];
    let (channel, payload) = split_channel_frame(&frame).unwrap();
    assert_eq!(channel, 1);
    assert_eq!(payload, b"hi\n".to_vec());
    assert!(split_channel_frame(&[]).is_none());
}

#[test]
fn api_errors_classified_by_code() {
    assert!(handle_api_errors("ok", 200, None).is_ok());
    assert!(handle_api_errors("created", 201, None).is_ok());
    let err = handle_api_errors("not json", 404, None).unwrap_err();
    match err {
        ClientError::Api(s) => {
            assert_eq!(s.code, 404);
            assert_eq!(s.message, "not json");
            assert_eq!(s.reason, "Failed to parse error data");
            assert!(s.status.is_none());
        }
        other => panic!("unexpected {:?}", other),
    }
    let parsed = Status {
        status: Some("Failure".to_owned()),
        code: 409,
        message: "conflict".to_owned(),
        reason: "Conflict".to_owned(),
    };
    let err = handle_api_errors("ignored", 409, Some(parsed.clone())).unwrap_err();
    assert_eq!(err, ClientError::Api(parsed));
}

#[test]
fn line_buffer_frames_newline_delimited_chunks() {
    let mut buf = LineBuffer::new();
    buf.push_chunk(b"{\"type\":\"ADDED\"}\n{\"ty");
    let first = buf.next_line().unwrap();
    assert_eq!(first, b"{\"type\":\"ADDED\"}".to_vec());
    assert!(buf.next_line().is_none(), "incomplete line stays buffered");
    buf.push_chunk(b"pe\":\"DELETED\"}\n");
    let second = buf.next_line().unwrap();
    assert_eq!(second, b"{\"type\":\"DELETED\"}".to_vec());
    assert!(buf.next_line().is_none());
}

#[test]
fn watch_line_classification() {
    let ev: LineParse<i32> = LineParse::Event(WireEvent::Added(5));
    assert!(matches!(
        classify_watch_line(ev),
        Some(Ok(WireEvent::Added(5)))
    ));
    assert!(classify_watch_line::<i32>(LineParse::Eof).is_none());
    let status = Status {
        status: Some("Failure".to_owned()),
        code: 410,
        message: String::new(),
        reason: "Expired".to_owned(),
    };
    assert!(matches!(
        classify_watch_line::<i32>(LineParse::ErrorStatus(status)),
        Some(Err(ClientError::Api(_)))
    ));
    assert!(matches!(
        classify_watch_line::<i32>(LineParse::Garbled("bad".to_owned())),
        Some(Err(ClientError::Decode(_)))
    ));
}

#[test]
fn stream_failures_absorbed_or_surfaced() {
    assert!(classify_stream_failure(IoFailure::TimedOut).is_none());
    assert!(classify_stream_failure(IoFailure::UnexpectedEof).is_none());
    assert_eq!(
        classify_stream_failure(IoFailure::Other("reset".to_owned())),
        Some(ClientError::ReadEvents("reset".to_owned()))
    );
}

#[test]
fn error_code_boundaries() {
    assert!(handle_api_errors("x", 399, None).is_ok());
    assert!(handle_api_errors("x", 400, None).is_err());
    assert!(handle_api_errors("x", 599, None).is_err());
    assert!(handle_api_errors("x", 600, None).is_ok());
}

#[test]
fn status_constructors() {
    let ok = Status::success();
    assert!(ok.is_success());
    assert_eq!(ok.status.as_deref(), Some("Success"));
    let bad = Status::failure("broke", "Invalid");
    assert!(!bad.is_success());
    assert_eq!(bad.status.as_deref(), Some("Failure"));
    assert_eq!(bad.message, "broke");
    assert_eq!(bad.reason, "Invalid");
}

#[test]
fn gone_statuses_recognized() {
    let by_code = Status {
        status: None,
        code: 410,
        message: String::new(),
        reason: "SomethingElse".to_owned(),
    };
    assert!(by_code.is_gone());
    let by_reason = Status {
        status: None,
        code: 0,
        message: String::new(),
        reason: "Expired".to_owned(),
    };
    assert!(by_reason.is_gone());
    let not_gone = Status {
        status: None,
        code: 500,
        message: String::new(),
        reason: "InternalError".to_owned(),
    };
    assert!(!not_gone.is_gone());
}

fn held_lease(holder: &str, renew_time: i64, duration: i32, transitions: i32) -> LeaseSpec {
    LeaseSpec {
        holder_identity: Some(holder.to_owned()),
        lease_duration_seconds: Some(duration),
        acquire_time: Some(renew_time),
        renew_time: Some(renew_time),
        lease_transitions: Some(transitions),
    }
}

#[test]
fn unheld_lease_taken_on_first_attempt() {
    let elector = Elector::new("lock", "A", 10);
    let lease = LeaseSpec::empty();
    assert_eq!(elector.state(&lease), LeaseState::Unheld);
    let now = 1_000_000i64;
    match elector.try_acquire_step(&lease, now) {
        TryAcquireStep::Commit(new) => {
            assert_eq!(new.holder_identity.as_deref(), Some("A"));
            assert_eq!(new.acquire_time, Some(now));
            assert_eq!(new.renew_time, Some(now));
            assert_eq!(new.lease_duration_seconds, Some(10));
            assert_eq!(new.lease_transitions, Some(1));
        }
        other => panic!("unexpected {:?}", other),
    }
}

#[test]
fn null_holder_with_times_still_taken() {
    let mut lease = held_lease("B", 0, 10, 3);
    lease.holder_identity = None;
    let elector = Elector::new("lock", "A", 10);
    assert_eq!(elector.state(&lease), LeaseState::Unheld);
    assert!(matches!(
        elector.try_acquire_step(&lease, 5),
        TryAcquireStep::Commit(_)
    ));
}

#[test]
fn live_holder_is_never_usurped() {
    let elector_b = Elector::new("lock", "B", 10);
    let lease = held_lease("A", 1_000_000, 10, 1);
    // expires at renew_time + 10s
    assert_eq!(
        elector_b.state(&lease),
        LeaseState::HeldByOther {
            holder: "A".to_owned(),
            expires_at: Some(11_000_000),
        }
    );
    match elector_b.try_acquire_step(&lease, 5_000_000) {
        TryAcquireStep::Conflict { holder, expires_at } => {
            assert_eq!(holder, "A");
            assert_eq!(expires_at, 11_000_000);
        }
        other => panic!("unexpected {:?}", other),
    }
}

#[test]
fn expired_holder_is_replaced_with_transition() {
    let elector_b = Elector::new("lock", "B", 10);
    let lease = held_lease("A", 1_000_000, 10, 1);
    match elector_b.try_acquire_step(&lease, 12_000_000) {
        TryAcquireStep::Commit(new) => {
            assert_eq!(new.holder_identity.as_deref(), Some("B"));
            assert_eq!(new.lease_transitions, Some(2));
            assert_eq!(new.acquire_time, Some(12_000_000));
        }
        other => panic!("unexpected {:?}", other),
    }
}

#[test]
fn holder_renews_halfway() {
    let elector = Elector::new("lock", "A", 10);
    let lease = held_lease("A", 1_000_000, 10, 1);
    assert_eq!(
        elector.state(&lease),
        LeaseState::HeldBySelf { renew_at: Some(6_000_000) }
    );
    assert_eq!(elector.renew_wait(&lease), Some(6_000_000));
    match elector.try_acquire_step(&lease, 6_000_000) {
        TryAcquireStep::Commit(new) => {
            assert_eq!(new.holder_identity.as_deref(), Some("A"));
            assert_eq!(new.renew_time, Some(6_000_000));
            assert_eq!(new.acquire_time, Some(1_000_000), "acquisition time unchanged");
            assert_eq!(new.lease_transitions, Some(1), "no hand-over on renewal");
        }
        other => panic!("unexpected {:?}", other),
    }
}

#[test]
fn release_clears_or_reports_theft() {
    let elector = Elector::new("lock", "A", 10);
    match elector.release_step(&held_lease("A", 1_000_000, 10, 1)) {
        ReleaseStep::Commit(new) => {
            assert!(new.holder_identity.is_none());
            assert!(new.acquire_time.is_none());
            assert!(new.renew_time.is_none());
            assert!(new.lease_duration_seconds.is_none());
            assert_eq!(new.lease_transitions, Some(2));
        }
        other => panic!("unexpected {:?}", other),
    }
    assert_eq!(
        elector.release_step(&held_lease("B", 1_000_000, 10, 1)),
        ReleaseStep::AlreadyStolen { holder: "B".to_owned() }
    );
    assert_eq!(elector.release_step(&LeaseSpec::empty()), ReleaseStep::Unheld);
}
