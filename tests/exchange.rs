use message_classifier::exchange::{Action, Config, ConfigError, Event, Exchange, Phase, Reply};
use message_classifier::prompt::{build_prompt, completion_payload, COMPLETIONS_URL};
use message_classifier::request::{MessageRequest, RequestError};

fn config() -> Config {
    Config::new(Some("key-123".to_string())).unwrap()
}

fn accepted(ex: &mut Exchange, body: &[u8]) {
    match ex.step(Event::Message(body.to_vec())) {
        Action::Send(_) => {}
        _ => panic!("expected a provider call"),
    }
    assert_eq!(ex.phase, Phase::AwaitingProvider);
}

#[test]
fn config_requires_key() {
    assert!(matches!(Config::new(None), Err(ConfigError::MissingApiKey)));
    assert_eq!(Config::new(Some(String::new())).unwrap().api_key, "");
}

#[test]
fn request_parses_content() {
    let m = MessageRequest::parse(br#"{"content":"hello there"}"#).unwrap();
    assert_eq!(m.content, "hello there");
    let m = MessageRequest::parse(br#"{"content":"","extra":1}"#).unwrap();
    assert_eq!(m.content, "");
}

#[test]
fn request_without_content_is_malformed() {
    assert!(matches!(MessageRequest::parse(br#"{"text":"hi"}"#), Err(RequestError::Malformed)));
    assert!(matches!(MessageRequest::parse(br#"{"content":7}"#), Err(RequestError::Malformed)));
    assert!(matches!(MessageRequest::parse(b"not json"), Err(RequestError::Malformed)));
    assert!(matches!(MessageRequest::parse(b""), Err(RequestError::Malformed)));
}

#[test]
fn message_leads_to_one_provider_call() {
    let mut ex = Exchange::new(&config());
    assert_eq!(ex.phase, Phase::AwaitingMessage);
    match ex.step(Event::Message(br#"{"content":"are you alone?"}"#.to_vec())) {
        Action::Send(req) => {
            assert_eq!(req.url, COMPLETIONS_URL);
            assert_eq!(req.authorization, "Bearer key-123");
            assert_eq!(req.payload, completion_payload(&build_prompt("are you alone?")));
        }
        _ => panic!("expected a provider call"),
    }
    assert_eq!(ex.phase, Phase::AwaitingProvider);
}

#[test]
fn missing_content_is_client_error_without_call() {
    let mut ex = Exchange::new(&config());
    match ex.step(Event::Message(br#"{"message":"hi"}"#.to_vec())) {
        Action::Respond(reply) => {
            assert!(matches!(reply, Reply::ClientError));
            assert_eq!(reply.status(), 400);
        }
        _ => panic!("expected a client error"),
    }
    assert_eq!(ex.phase, Phase::Finished);
    assert!(matches!(ex.step(Event::ProviderFailed), Action::Ignore));
}

#[test]
fn transport_failure_is_server_error_without_retry() {
    let mut ex = Exchange::new(&config());
    accepted(&mut ex, br#"{"content":"x"}"#);
    match ex.step(Event::ProviderFailed) {
        Action::Respond(reply) => {
            assert_eq!(reply.status(), 500);
            assert_eq!(reply.body(), "");
        }
        _ => panic!("expected a server error"),
    }
    assert_eq!(ex.phase, Phase::Finished);
    assert!(matches!(ex.step(Event::ProviderFailed), Action::Ignore));
    assert!(matches!(
        ex.step(Event::Message(br#"{"content":"x"}"#.to_vec())),
        Action::Ignore
    ));
}

#[test]
fn provider_answer_becomes_analysis() {
    let mut ex = Exchange::new(&config());
    accepted(&mut ex, br#"{"content":"x"}"#);
    let body = br#"{"choices":[{"text":"High"}]}"#.to_vec();
    match ex.step(Event::ProviderAnswered { status: 200, body }) {
        Action::Respond(reply) => {
            assert_eq!(reply.status(), 200);
            assert_eq!(reply.body(), r#"{"threat_level":5,"analysis_report":"High"}"#);
        }
        _ => panic!("expected an analysis"),
    }
    assert_eq!(ex.phase, Phase::Finished);
}

#[test]
fn degraded_answer_is_still_success() {
    let mut ex = Exchange::new(&config());
    accepted(&mut ex, br#"{"content":"x"}"#);
    match ex.step(Event::ProviderAnswered { status: 200, body: b"garbage".to_vec() }) {
        Action::Respond(reply) => {
            assert_eq!(reply.status(), 200);
            assert_eq!(reply.body(), r#"{"threat_level":1,"analysis_report":"Low"}"#);
        }
        _ => panic!("expected an analysis"),
    }
}

#[test]
fn provider_error_status_is_server_error() {
    let mut ex = Exchange::new(&config());
    accepted(&mut ex, br#"{"content":"x"}"#);
    let body = br#"{"error":{"message":"invalid key"}}"#.to_vec();
    match ex.step(Event::ProviderAnswered { status: 401, body }) {
        Action::Respond(reply) => {
            assert!(matches!(reply, Reply::ServerError));
            assert_eq!(reply.status(), 500);
            assert_eq!(reply.body(), "");
        }
        _ => panic!("expected a server error"),
    }
}

#[test]
fn events_out_of_phase_are_ignored() {
    let mut ex = Exchange::new(&config());
    assert!(matches!(ex.step(Event::ProviderFailed), Action::Ignore));
    assert!(matches!(
        ex.step(Event::ProviderAnswered { status: 200, body: Vec::new() }),
        Action::Ignore
    ));
    assert_eq!(ex.phase, Phase::AwaitingMessage);
    accepted(&mut ex, br#"{"content":"x"}"#);
    assert!(matches!(
        ex.step(Event::Message(br#"{"content":"y"}"#.to_vec())),
        Action::Ignore
    ));
    assert_eq!(ex.phase, Phase::AwaitingProvider);
}
