use rtsp_redirect::conn::{Action, Conn};

const LOCATION_FOR_XYZ123: &str = "rtsp://192.168.1.10/StreamingSetting?version=1.0&action=getRTSPStream&sessionID=XYZ123&ChannelID=1&ChannelName=Channel1";

fn request_bytes(cseq: Option<&str>, uri: Option<&str>) -> Vec<u8> {
    let mut builder =
        rtsp_types::Request::builder(rtsp_types::Method::Setup, rtsp_types::Version::V2_0);
    if let Some(u) = uri {
        builder = builder.request_uri(rtsp_types::Url::parse(u).expect("test URI must parse"));
    }
    if let Some(c) = cseq {
        builder = builder.header(rtsp_types::headers::CSEQ, c);
    }
    let request = builder.empty();
    let mut out = Vec::new();
    request.write(&mut out).expect("writing to a Vec cannot fail");
    out
}

fn setup_request() -> Vec<u8> {
    request_bytes(Some("3"), Some("rtsp://proxy.local/192.168.1.10/admin/pass1"))
}

fn authenticate_fields(action: Action) -> (String, String, String) {
    match action {
        Action::Authenticate { address, username, password } => (address, username, password),
        Action::KeepReading => panic!("expected Authenticate, got KeepReading"),
        Action::Close => panic!("expected Authenticate, got Close"),
    }
}

#[test]
fn whole_request_at_once_authenticates() {
    let mut conn = Conn::new();
    let action = conn.on_data(&setup_request());
    let (address, username, password) = authenticate_fields(action);
    assert_eq!(address, "192.168.1.10");
    assert_eq!(username, "admin");
    assert_eq!(password, "pass1");
}

#[test]
fn redirect_shape() {
    let mut conn = Conn::new();
    let action = conn.on_data(&setup_request());
    assert!(matches!(action, Action::Authenticate { .. }));
    let reply = conn.on_auth_success("XYZ123");

    let (message, consumed) =
        rtsp_types::Message::<Vec<u8>>::parse(&reply).expect("the reply must parse");
    assert_eq!(consumed, reply.len());
    let response = match message {
        rtsp_types::Message::Response(response) => response,
        _ => panic!("the reply must be a response message"),
    };
    assert_eq!(response.version(), rtsp_types::Version::V2_0);
    assert_eq!(response.status(), rtsp_types::StatusCode::Found);
    let cseq = response.header(&rtsp_types::headers::CSEQ).expect("reply echoes CSeq");
    assert_eq!(cseq.as_str(), "3");
    let location = response.header(&rtsp_types::headers::LOCATION).expect("reply carries Location");
    assert_eq!(location.as_str(), LOCATION_FOR_XYZ123);
}

#[test]
fn framing_one_byte_at_a_time() {
    let bytes = setup_request();

    let mut whole = Conn::new();
    let action = whole.on_data(&bytes);
    let whole_fields = authenticate_fields(action);
    let whole_reply = whole.on_auth_success("XYZ123");

    let mut chunked = Conn::new();
    let mut last = None;
    for (i, byte) in bytes.iter().enumerate() {
        let action = chunked.on_data(&[*byte]);
        if i + 1 < bytes.len() {
            assert!(
                matches!(action, Action::KeepReading),
                "a proper prefix must draw no reply and no close",
            );
        } else {
            last = Some(action);
        }
    }
    let chunked_fields = authenticate_fields(last.expect("the request was not empty"));
    assert_eq!(chunked_fields, whole_fields);
    let chunked_reply = chunked.on_auth_success("XYZ123");
    assert_eq!(chunked_reply, whole_reply);
}

#[test]
fn incomplete_then_complete() {
    let bytes = setup_request();
    let (prefix, rest) = bytes.split_at(bytes.len() / 2);

    let mut conn = Conn::new();
    let first = conn.on_data(prefix);
    assert!(matches!(first, Action::KeepReading));
    let second = conn.on_data(rest);
    let (address, username, password) = authenticate_fields(second);
    assert_eq!(address, "192.168.1.10");
    assert_eq!(username, "admin");
    assert_eq!(password, "pass1");
}

#[test]
fn missing_cseq_closes_without_reply() {
    let mut conn = Conn::new();
    let action = conn.on_data(&request_bytes(None, Some("rtsp://proxy.local/192.168.1.10/admin/pass1")));
    assert!(matches!(action, Action::Close));
}

#[test]
fn short_target_path_closes_without_reply() {
    let mut conn = Conn::new();
    let action = conn.on_data(&request_bytes(Some("3"), Some("rtsp://proxy.local/192.168.1.10/admin")));
    assert!(matches!(action, Action::Close));
}

#[test]
fn missing_target_uri_closes_without_reply() {
    let mut conn = Conn::new();
    let action = conn.on_data(&request_bytes(Some("3"), None));
    assert!(matches!(action, Action::Close));
}

#[test]
fn malformed_bytes_close_and_second_connection_succeeds() {
    let mut first = Conn::new();
    let action = first.on_data(b"\xff\xfe not a message\r\n\r\n");
    assert!(matches!(action, Action::Close));

    let mut second = Conn::new();
    let action = second.on_data(&setup_request());
    assert!(matches!(action, Action::Authenticate { .. }));
}

#[test]
fn response_message_closes_without_reply() {
    let response = rtsp_types::Response::builder(
        rtsp_types::Version::V2_0,
        rtsp_types::StatusCode::Ok,
    )
        .header(rtsp_types::headers::CSEQ, "1")
        .empty();
    let mut bytes = Vec::new();
    response.write(&mut bytes).expect("writing to a Vec cannot fail");

    let mut conn = Conn::new();
    let action = conn.on_data(&bytes);
    assert!(matches!(action, Action::Close));
}

#[test]
fn auth_failure_draws_no_reply() {
    let mut conn = Conn::new();
    let action = conn.on_data(&setup_request());
    assert!(matches!(action, Action::Authenticate { .. }));
    let action = conn.on_auth_failure();
    assert!(matches!(action, Action::Close));
}

#[test]
fn empty_read_keeps_reading() {
    let conn = Conn::new();
    assert!(matches!(conn.on_empty_read(), Action::KeepReading));
}

#[test]
fn read_failure_closes() {
    let mut conn = Conn::new();
    assert!(matches!(conn.on_read_failed(), Action::Close));
}
