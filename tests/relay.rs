use pdf_chat::error::ErrorKind;
use pdf_chat::relay::{request_body, RelayOutcome, RelayService, DEFAULT_ENDPOINT};

#[test]
fn body_has_message_then_path() {
    assert_eq!(
        request_body("what is this?", "temp/a.txt"),
        "{\"message\":\"what is this?\",\"pdf_path\":\"temp/a.txt\"}"
    );
}

#[test]
fn body_escapes_json_specials() {
    assert_eq!(
        request_body("say \"hi\"\n", "C:\\docs\\a.pdf"),
        "{\"message\":\"say \\\"hi\\\"\\n\",\"pdf_path\":\"C:\\\\docs\\\\a.pdf\"}"
    );
    assert_eq!(request_body("", ""), "{\"message\":\"\",\"pdf_path\":\"\"}");
    assert_eq!(request_body("\u{1}é", "x"), "{\"message\":\"\\u0001é\",\"pdf_path\":\"x\"}");
}

#[test]
fn body_is_valid_json_with_both_fields() {
    let body = request_body("quote \" and \\ slash", "päth/ü.pdf");
    let value: serde_json::Value = serde_json::from_str(&body).unwrap();
    assert_eq!(value["message"], "quote \" and \\ slash");
    assert_eq!(value["pdf_path"], "päth/ü.pdf");
}

#[test]
fn prepared_request_targets_endpoint() {
    let service = RelayService::local();
    assert_eq!(DEFAULT_ENDPOINT, "http://localhost:8000/chat");
    let request = service.prepare("m", "p");
    assert_eq!(request.url, "http://localhost:8000/chat");
    assert_eq!(request.body, "{\"message\":\"m\",\"pdf_path\":\"p\"}");
    let other = RelayService::new("http://127.0.0.1:9/chat".to_string());
    assert_eq!(other.prepare("m", "p").url, "http://127.0.0.1:9/chat");
}

#[test]
fn answer_is_returned_verbatim() {
    let service = RelayService::local();
    let r = service.conclude(RelayOutcome::Received {
        status: 200,
        body: "{\"answer\":\"a greeting\"}".to_string(),
    });
    assert_eq!(r.unwrap(), "{\"answer\":\"a greeting\"}");
}

#[test]
fn echoed_body_contains_message_and_path() {
    let service = RelayService::local();
    let request = service.prepare("what is this?", "temp/a.txt");
    let echoed = service
        .conclude(RelayOutcome::Received { status: 200, body: request.body })
        .unwrap();
    assert!(echoed.contains("what is this?"));
    assert!(echoed.contains("temp/a.txt"));
}

#[test]
fn any_status_yields_the_body() {
    let service = RelayService::local();
    for status in [201u16, 404, 500] {
        let r = service.conclude(RelayOutcome::Received { status, body: "oops".to_string() });
        assert_eq!(r.unwrap(), "oops");
    }
}

#[test]
fn send_failure_is_transport_error() {
    let service = RelayService::local();
    match service.conclude(RelayOutcome::SendFailed("connection refused".to_string())) {
        Err(ErrorKind::Transport(m)) => assert_eq!(m, "connection refused"),
        other => panic!("{:?}", other),
    }
}

#[test]
fn unreadable_body_is_body_read_error() {
    let service = RelayService::local();
    let e = service
        .conclude(RelayOutcome::BodyUnreadable("stream closed".to_string()))
        .unwrap_err();
    assert!(matches!(e, ErrorKind::BodyRead(_)));
    assert_eq!(e.message(), "stream closed");
}
