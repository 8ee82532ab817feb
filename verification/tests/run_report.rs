use bookmarks_client::error::Failure;
use bookmarks_client::outcome::{report, Reply};

#[test]
fn success_prints_body_and_newline() {
    let r = report(Ok(Reply { status: 200, body: "{\"data\":{}}".to_string() }));
    assert_eq!(r.stdout, "{\"data\":{}}\n");
    assert_eq!(r.stderr, "");
    assert_eq!(r.exit_code, 0);
}

#[test]
fn empty_body_prints_one_newline() {
    let r = report(Ok(Reply { status: 200, body: String::new() }));
    assert_eq!(r.stdout, "\n");
    assert_eq!(r.stderr, "");
    assert_eq!(r.exit_code, 0);
}

#[test]
fn body_is_printed_verbatim() {
    let bodies = [
        "<html>not json</html>".to_string(),
        "ends with newline\n".to_string(),
        "\u{fffd}\u{0000}caf\u{00e9} \u{1f600}".to_string(),
        "x".repeat(1 << 20),
    ];
    for body in bodies {
        let r = report(Ok(Reply { status: 200, body: body.clone() }));
        assert_eq!(r.stdout, format!("{}\n", body));
        assert_eq!(r.stderr, "");
        assert_eq!(r.exit_code, 0);
    }
}

#[test]
fn server_error_status_is_not_a_failure() {
    let body = "{\"errors\":[{\"message\":\"boom\"}]}";
    let r = report(Ok(Reply { status: 500, body: body.to_string() }));
    assert_eq!(r.stdout, format!("{}\n", body));
    assert_eq!(r.stderr, "");
    assert_eq!(r.exit_code, 0);
}

#[test]
fn status_does_not_change_the_report() {
    for status in [0u16, 200, 204, 301, 404, 500, 65535] {
        let r = report(Ok(Reply { status, body: "same".to_string() }));
        assert_eq!(r.stdout, "same\n");
        assert_eq!(r.stderr, "");
        assert_eq!(r.exit_code, 0);
    }
}

#[test]
fn transport_failure_goes_to_stderr() {
    let r = report(Err(Failure::Transport("connection refused".to_string())));
    assert_eq!(r.stdout, "");
    assert_eq!(r.stderr, "Error: connection refused\n");
    assert_eq!(r.exit_code, 1);
}

#[test]
fn serialization_failure_goes_to_stderr() {
    let r = report(Err(Failure::Serialization("key must be a string".to_string())));
    assert_eq!(r.stdout, "");
    assert_eq!(r.stderr, "Error: key must be a string\n");
    assert_eq!(r.exit_code, 1);
}

#[test]
fn decode_failure_goes_to_stderr() {
    let r = report(Err(Failure::Decode("error decoding response body".to_string())));
    assert_eq!(r.stdout, "");
    assert_eq!(r.stderr, "Error: error decoding response body\n");
    assert_eq!(r.exit_code, 1);
}

#[test]
fn failure_message_is_its_detail() {
    assert_eq!(Failure::Serialization("a".to_string()).message(), "a");
    assert_eq!(Failure::Transport("b".to_string()).message(), "b");
    assert_eq!(Failure::Decode(String::new()).message(), "");
}
