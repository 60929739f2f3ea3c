use wagonet::Error;

#[test]
fn errors_have_texts() {
    let text = |s: &str| s.to_string();
    let cases: Vec<(Error, &str)> = vec![
        (Error::Io(text("reset")), "I/O error: reset"),
        (Error::Timeout(text("slow")), "Timeout: slow"),
        (Error::Tls(text("bad")), "TLS error: bad"),
        (Error::Protocol(text("odd")), "Protocol error: odd"),
        (
            Error::BufferOverflow { expected: 10485761, limit: 10 },
            "Buffer overflow: expected 10485761, limit 10",
        ),
        (Error::NotConnected, "Not connected"),
        (Error::ResponseError { status: 205 }, "Response error: status 205"),
        (Error::Config(text("no")), "Invalid config: no"),
        (Error::Other(text("other")), "other"),
        (Error::Msg(text("plain")), "plain"),
    ];
    for (error, expected) in cases {
        assert_eq!(error.to_string(), expected);
    }
}

#[test]
fn texts_become_errors() {
    match Error::from("a message") {
        Error::Msg(text) => assert_eq!(text, "a message"),
        _ => panic!("expected a message"),
    }
    match Error::from("another".to_string()) {
        Error::Msg(text) => assert_eq!(text, "another"),
        _ => panic!("expected a message"),
    }
}
