use ccw::dispatch::{Action, Event, RequestOutcome};
use ccw::error::Error;
use ccw::config::Config;
use ccw::mode::Mode;
use ccw::message::Message;
use ccw::ollama::{request, OllamaResponse};

fn content_of(body: &str) -> Result<String, Error> {
    OllamaResponse::parse(body).map(|r| r.content().to_string())
}

#[test]
fn parse_reads_the_words_of_the_model() {
    assert_eq!(content_of(r#"{"message":{"content":"ok"}}"#), Ok("ok".to_string()));
    assert_eq!(
        content_of(r#"{"message":{"role":"assistant","content":"hello there"}}"#),
        Ok("hello there".to_string())
    );
    assert_eq!(content_of(r#"{"message":{"content":""}}"#), Ok(String::new()));
}

#[test]
fn parse_ignores_what_else_the_body_holds() {
    let body = r#"{
        "model": "llama3",
        "created_at": "2024-01-01T00:00:00Z",
        "message": { "role": "assistant", "content": "fine", "images": null },
        "done": true,
        "total_duration": 12345
    }"#;
    assert_eq!(content_of(body), Ok("fine".to_string()));
}

#[test]
fn parse_unescapes_json_strings() {
    assert_eq!(
        content_of(r#"{"message":{"content":"a\nb\t\"c\" é"}}"#),
        Ok("a\nb\t\"c\" é".to_string())
    );
}

#[test]
fn parse_takes_the_role_from_the_body() {
    let with = OllamaResponse::parse(r#"{"message":{"role":"assistant","content":"x"}}"#).unwrap();
    assert_eq!(with.content(), "x");
    let event = Event::Reply(with);
    assert!(matches!(event, Event::Reply(_)));
}

#[test]
fn parse_rejects_what_is_not_json() {
    for body in ["", "ok", "{", "{\"message\":", "<html></html>", "{\"message\":{\"content\":\"x\"}} trailing"] {
        assert_eq!(content_of(body), Err(Error::ReplyMalformed), "body: {:?}", body);
    }
}

#[test]
fn parse_rejects_json_of_another_shape() {
    for body in [
        "null",
        "42",
        "\"ok\"",
        "[]",
        "{}",
        r#"{"message":null}"#,
        r#"{"message":"ok"}"#,
        r#"{"message":{}}"#,
        r#"{"message":{"role":"assistant"}}"#,
        r#"{"message":{"content":null}}"#,
        r#"{"message":{"content":7}}"#,
        r#"{"message":{"content":["ok"]}}"#,
        r#"{"message":{"content":{"text":"ok"}}}"#,
        r#"{"message":["ok","assistant"]}"#,
        r#"[{"content":"ok","role":"assistant"}]"#,
        r#"{"content":"ok"}"#,
        r#"{"Message":{"content":"ok"}}"#,
        r#"{"error":"model not found"}"#,
    ] {
        assert_eq!(content_of(body), Err(Error::ReplyMalformed), "body: {:?}", body);
    }
}

#[test]
fn from_value_reads_a_parsed_body() {
    let value: serde_json::Value =
        serde_json::from_str(r#"{"message":{"content":"parsed","role":"assistant"}}"#).unwrap();
    assert_eq!(OllamaResponse::from_value(&value).unwrap().content(), "parsed");
    let value: serde_json::Value = serde_json::from_str(r#"{"message":{"content":1}}"#).unwrap();
    assert!(OllamaResponse::from_value(&value).is_none());
    let value: serde_json::Value = serde_json::from_str(r#""content""#).unwrap();
    assert!(OllamaResponse::from_value(&value).is_none());
}

#[test]
fn from_body_turns_a_body_into_an_event() {
    match Event::from_body(r#"{"message":{"content":"ok"}}"#) {
        Event::Reply(r) => assert_eq!(r.content(), "ok"),
        other => panic!("expected a reply, got {:?}", other),
    }
    assert!(matches!(Event::from_body("not json"), Event::BodyMalformed));
    assert!(matches!(Event::from_body(r#"{"message":{}}"#), Event::BodyMalformed));
}

fn config() -> Config {
    Config::new(
        None,
        None,
        None,
        0,
        3,
        Mode::Checker,
        None,
        "http://localhost:11434".to_string(),
        None,
        None,
        None,
        300,
    )
}

#[test]
fn a_simulated_200_response_with_ok_returns_ok_and_the_provenance_line() {
    let messages = vec![Message::user("Here is the code: x".to_string())];
    let (mut d, first) = request(&config(), messages, Some(4096), 1);
    assert!(matches!(first, Action::Send));
    assert!(matches!(d.step(Event::Status(200)), Action::ReadReply));
    let action = d.step(Event::from_body(r#"{"message":{"role":"assistant","content":"ok"}}"#));
    match action {
        Action::Finish(outcome) => assert_eq!(
            outcome.into_result(),
            Ok("ok\n\nText generated with ccw (v0.1.0)/qwen3-coder:30b".to_string())
        ),
        other => panic!("expected the request to finish, got {:?}", other),
    }
}

#[test]
fn a_simulated_200_response_with_a_malformed_body_is_fatal() {
    let messages = vec![Message::user("Here is the code: x".to_string())];
    let (mut d, _) = request(&config(), messages, Some(4096), 1);
    d.step(Event::Status(200));
    match d.step(Event::from_body("{\"done\":true}")) {
        Action::Finish(RequestOutcome::Failed(e)) => {
            assert_eq!(e, Error::ReplyMalformed);
            assert!(e.is_protocol_failure());
        }
        other => panic!("expected a failure, got {:?}", other),
    }
    assert!(matches!(d.step(Event::TransportFailed), Action::Ignored));
}
