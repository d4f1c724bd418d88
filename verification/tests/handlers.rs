use birdy_bot::command::{Channel, Mode, Edition, CompileRequest};
use birdy_bot::handlers::{eval_url, markdown_link, sandbox_body, compile_reply, message_body,
    attachment_body, auth_frame, parse_compile_response, parse_upload_response};
use birdy_bot::text::help_text_vec;

#[test]
fn eval_url_blue_prepends_selector_and_strips_spaces() {
    let url = eval_url(&b"blue".to_vec(), &b" x^2+y^2=1".to_vec());
    assert_eq!(
        url.as_slice(),
        b"https://latex.codecogs.com/png.latex?\\bg_bluex^2+y^2=1".as_slice()
    );
}

#[test]
fn eval_url_color_is_case_insensitive() {
    let url = eval_url(&b"BLUE".to_vec(), &b"x".to_vec());
    assert_eq!(url.as_slice(), b"https://latex.codecogs.com/png.latex?\\bg_bluex".as_slice());
}

#[test]
fn eval_url_unknown_or_absent_color_prepends_nothing() {
    let url = eval_url(&b"green".to_vec(), &b"a b".to_vec());
    assert_eq!(url.as_slice(), b"https://latex.codecogs.com/png.latex?ab".as_slice());
    let url = eval_url(&b"".to_vec(), &b"a b".to_vec());
    assert_eq!(url.as_slice(), b"https://latex.codecogs.com/png.latex?ab".as_slice());
}

#[test]
fn markdown_link_wraps_the_url() {
    let link = markdown_link(&b"https://example.invalid/x".to_vec());
    assert_eq!(link.as_slice(), b"[](https://example.invalid/x)".as_slice());
}

#[test]
fn sandbox_body_exact_bytes() {
    let request = CompileRequest {
        channel: Channel::Stable,
        mode: Mode::Release,
        edition: Edition::E2021,
        code: b"fn main(){}".to_vec(),
    };
    let body = sandbox_body(&request);
    assert_eq!(
        body.as_slice(),
        br#"{"channel":"stable","edition":"2021","code":"fn main(){}","crateType":"bin","mode":"release","tests":false}"#.as_slice()
    );
}

#[test]
fn sandbox_body_escapes_the_code() {
    let request = CompileRequest {
        channel: Channel::Nightly,
        mode: Mode::Debug,
        edition: Edition::E2015,
        code: b"println!(\"hi\");".to_vec(),
    };
    let body = sandbox_body(&request);
    assert_eq!(
        body.as_slice(),
        br#"{"channel":"nightly","edition":"2015","code":"println!(\"hi\");","crateType":"bin","mode":"debug","tests":false}"#.as_slice()
    );
}

#[test]
fn compile_reply_takes_stdout_on_success_and_stderr_on_failure() {
    let ok = parse_compile_response(&br#"{"success":true,"stdout":"hi\n","stderr":""}"#.to_vec())
        .expect("a well-formed answer parses");
    assert_eq!(compile_reply(&ok).as_slice(), b"``` \n hi\n".as_slice());
    let bad = parse_compile_response(&br#"{"success":false,"stdout":"","stderr":"boom"}"#.to_vec())
        .expect("a well-formed answer parses");
    assert_eq!(compile_reply(&bad).as_slice(), b"``` \n boom".as_slice());
}

#[test]
fn compile_response_missing_field_is_rejected() {
    assert!(parse_compile_response(&br#"{"success":true,"stdout":"x"}"#.to_vec()).is_none());
    assert!(parse_compile_response(&b"not json at all".to_vec()).is_none());
}

#[test]
fn upload_response_yields_the_id() {
    let id = parse_upload_response(&br#"{"id":"abc123"}"#.to_vec()).expect("an id is present");
    assert_eq!(id.as_slice(), b"abc123");
    assert!(parse_upload_response(&br#"{"other":1}"#.to_vec()).is_none());
    assert!(parse_upload_response(&b"garbage".to_vec()).is_none());
}

#[test]
fn message_body_quotes_the_text() {
    let body = message_body(&b"a \"quoted\" word".to_vec());
    assert_eq!(body.as_slice(), br#"{"content":"a \"quoted\" word"}"#.as_slice());
}

#[test]
fn attachment_body_references_the_id() {
    let body = attachment_body(&b"xyz".to_vec());
    assert_eq!(body.as_slice(), br#"{"attachments":["xyz"]}"#.as_slice());
}

#[test]
fn auth_frame_carries_the_quoted_credential() {
    let frame = auth_frame(&b"tok-1".to_vec());
    assert_eq!(frame.as_slice(), br#"{"type":"Authenticate","token":"tok-1"}"#.as_slice());
}

#[test]
fn help_text_lists_all_four_commands() {
    let h = help_text_vec();
    let s = String::from_utf8(h).expect("the help text is UTF-8");
    assert!(s.contains("!help"));
    assert!(s.contains("!graph"));
    assert!(s.contains("!eval"));
    assert!(s.contains("!comp"));
}
