use llm_remote_http::wire::{authorization_header, bearer, frame_embed_body, frame_infer_body, push_decimal};
use llm_remote_http::{
    accepts_status, finish_reply, EmbeddingsResult, EmbeddingsUsage, InferencingParams, InferencingResult,
    InferencingUsage, LlmError, RemoteHttpLlmEngine, Reply,
};

fn engine(token: &str) -> RemoteHttpLlmEngine {
    RemoteHttpLlmEngine::new("http://localhost:3000".to_string(), token.to_string())
}

fn params() -> InferencingParams {
    InferencingParams {
        max_tokens: 100,
        repeat_penalty: "1.1".to_string(),
        repeat_penalty_last_n_token_count: 64,
        temperature: "0.8".to_string(),
        top_k: 40,
        top_p: "0.9".to_string(),
    }
}

fn names(v: &[&str]) -> Vec<String> {
    v.iter().map(|s| s.to_string()).collect()
}

fn transport_error() -> reqwest::Error {
    reqwest::Client::new().get("not a url").build().unwrap_err()
}

#[test]
fn new_engine_denies_every_model() {
    let e = engine("tok");
    let r = e.prepare_infer(&"llama".to_string(), &"hi".to_string(), &params());
    assert_eq!(r.err(), Some(LlmError::AccessDenied("llama".to_string())));
    let r = e.prepare_embeddings(&"llama".to_string(), &names(&["x"]));
    assert_eq!(r.err(), Some(LlmError::AccessDenied("llama".to_string())));
}

#[test]
fn denied_model_is_refused_before_header_and_url() {
    // The token cannot stand in a header and the base cannot be joined, yet
    // the access check answers first.
    let mut e = RemoteHttpLlmEngine::new("mailto:x@y".to_string(), "bad\ntoken".to_string());
    e.set_allowed_models(names(&["other"]));
    let r = e.prepare_infer(&"llama".to_string(), &"hi".to_string(), &params());
    assert_eq!(r.err(), Some(LlmError::AccessDenied("llama".to_string())));
    let r = e.prepare_embeddings(&"llama".to_string(), &names(&[]));
    assert_eq!(r.err(), Some(LlmError::AccessDenied("llama".to_string())));
}

#[test]
fn replacing_the_allow_list_keeps_only_the_latest() {
    let mut e = engine("tok");
    e.set_allowed_models(names(&["a"]));
    assert!(e.check_access(&"a".to_string()).is_ok());
    e.set_allowed_models(names(&["b"]));
    assert_eq!(e.check_access(&"a".to_string()), Err(LlmError::AccessDenied("a".to_string())));
    assert!(e.check_access(&"b".to_string()).is_ok());
    assert!(!e.is_model_allowed(&"a".to_string()));
    assert!(e.is_model_allowed(&"b".to_string()));
    assert!(e.prepare_infer(&"b".to_string(), &"p".to_string(), &params()).is_ok());
    assert!(e.prepare_embeddings(&"b".to_string(), &names(&["p"])).is_ok());
}

#[test]
fn infer_request_has_url_header_and_body() {
    let mut e = engine("tok");
    e.set_allowed_models(names(&["llama"]));
    let req = e.prepare_infer(&"llama".to_string(), &"say \"hi\"".to_string(), &params()).unwrap();
    assert_eq!(req.url, "http://localhost:3000/infer");
    assert_eq!(req.authorization, "bearer tok");
    assert_eq!(
        req.body,
        "{\"model\":\"llama\",\"options\":{\"maxTokens\":100,\"repeatPenalty\":1.1,\
         \"repeatPenaltyLastNTokenCount\":64,\"temperature\":0.8,\"topK\":40,\"topP\":0.9},\
         \"prompt\":\"say \\\"hi\\\"\"}"
    );
}

#[test]
fn embed_request_has_url_header_and_body() {
    let mut e = engine("tok");
    e.set_allowed_models(names(&["m"]));
    let req = e.prepare_embeddings(&"m".to_string(), &names(&["a", "b\nc"])).unwrap();
    assert_eq!(req.url, "http://localhost:3000/embed");
    assert_eq!(req.authorization, "bearer tok");
    assert_eq!(req.body, "{\"input\":[\"a\",\"b\\nc\"],\"model\":\"m\"}");
}

#[test]
fn embed_request_without_inputs() {
    let mut e = engine("tok");
    e.set_allowed_models(names(&["m"]));
    let req = e.prepare_embeddings(&"m".to_string(), &names(&[])).unwrap();
    assert_eq!(req.body, "{\"input\":[],\"model\":\"m\"}");
}

#[test]
fn token_that_cannot_be_a_header_is_a_runtime_error() {
    let mut e = engine("bad\ntoken");
    e.set_allowed_models(names(&["m"]));
    let expected = Some(LlmError::RuntimeError("failed to create authorization header".to_string()));
    assert_eq!(e.prepare_infer(&"m".to_string(), &"p".to_string(), &params()).err(), expected);
    assert_eq!(e.prepare_embeddings(&"m".to_string(), &names(&["p"])).err(), expected);
}

#[test]
fn base_that_cannot_be_joined_is_a_runtime_error() {
    let mut e = RemoteHttpLlmEngine::new("mailto:x@y".to_string(), "tok".to_string());
    e.set_allowed_models(names(&["m"]));
    let expected = Some(LlmError::RuntimeError("failed to create URL".to_string()));
    assert_eq!(e.prepare_infer(&"m".to_string(), &"p".to_string(), &params()).err(), expected);
    assert_eq!(e.prepare_embeddings(&"m".to_string(), &names(&["p"])).err(), expected);
}

#[test]
fn header_accepts_tab_and_non_ascii_and_refuses_controls() {
    assert_eq!(bearer(&"tok".to_string()), "bearer tok");
    assert_eq!(authorization_header(&"a\tb".to_string()), Some("bearer a\tb".to_string()));
    assert!(authorization_header(&"caf\u{e9}".to_string()).is_some());
    assert!(authorization_header(&"a\u{7f}".to_string()).is_none());
    assert!(authorization_header(&"a\u{1}".to_string()).is_none());
}

#[test]
fn decoded_reply_is_returned_unchanged() {
    let value = InferencingResult {
        text: "hello".to_string(),
        usage: InferencingUsage { prompt_token_count: 3, generated_token_count: 1 },
    };
    let r = finish_reply(Reply::Decoded(value.clone())).unwrap();
    assert_eq!(r.text, "hello");
    assert_eq!(r.usage.prompt_token_count, 3);
    assert_eq!(r.usage.generated_token_count, 1);
    assert_eq!(r, value);
}

#[test]
fn decoded_embeddings_are_returned_unchanged() {
    let value = EmbeddingsResult {
        embeddings: vec![vec![0.5f32, -1.0], vec![2.25]],
        usage: EmbeddingsUsage { prompt_token_count: 7 },
    };
    let r = finish_reply(Reply::Decoded(value.clone())).unwrap();
    assert_eq!(r, value);
}

#[test]
fn undecodable_body_is_a_runtime_error() {
    let r = finish_reply::<InferencingResult>(Reply::DecodeFailed("missing field `usage`".to_string()));
    assert_eq!(
        r.err(),
        Some(LlmError::RuntimeError("failed to deserialize response: missing field `usage`".to_string()))
    );
}

#[test]
fn transport_failure_is_a_runtime_error_with_its_detail() {
    let r = finish_reply::<InferencingResult>(Reply::TransportFailed("connection refused".to_string()));
    assert_eq!(r.err(), Some(LlmError::RuntimeError("connection refused".to_string())));
}

#[test]
fn transport_error_gives_a_non_empty_detail() {
    let e = transport_error();
    let reply = Reply::<InferencingResult>::transport_failed(&e);
    let err = finish_reply(reply).unwrap_err();
    assert!(!err.is_access_denied());
    assert!(!err.detail().is_empty());
    assert_eq!(err.detail(), &e.to_string());
}

#[test]
fn decode_error_detail_follows_the_prefix() {
    let e = transport_error();
    let err = finish_reply(Reply::<InferencingResult>::decode_failed(&e)).unwrap_err();
    assert_eq!(err.detail(), &format!("failed to deserialize response: {e}"));
}

#[test]
fn concurrent_calls_build_independent_requests() {
    let mut e = engine("tok");
    e.set_allowed_models(names(&["a", "b"]));
    let ra = e.prepare_embeddings(&"a".to_string(), &names(&["x"])).unwrap();
    let rb = e.prepare_embeddings(&"b".to_string(), &names(&["y"])).unwrap();
    assert_eq!(ra.body, "{\"input\":[\"x\"],\"model\":\"a\"}");
    assert_eq!(rb.body, "{\"input\":[\"y\"],\"model\":\"b\"}");
    let da = finish_reply(Reply::Decoded(InferencingResult {
        text: "from a".to_string(),
        usage: InferencingUsage { prompt_token_count: 1, generated_token_count: 2 },
    }))
    .unwrap();
    let db = finish_reply::<InferencingResult>(Reply::TransportFailed("down".to_string()));
    assert_eq!(da.text, "from a");
    assert_eq!(db.err(), Some(LlmError::RuntimeError("down".to_string())));
}

#[test]
fn decimal_digits() {
    let mut s = "n=".to_string();
    push_decimal(&mut s, 0);
    assert_eq!(s, "n=0");
    let mut s = String::new();
    push_decimal(&mut s, 4294967295);
    assert_eq!(s, "4294967295");
    let mut s = String::new();
    push_decimal(&mut s, 1000);
    assert_eq!(s, "1000");
}

#[test]
fn frames_around_encoded_texts() {
    assert_eq!(
        frame_infer_body(&"\"m\"".to_string(), &params(), &"\"p\"".to_string()),
        "{\"model\":\"m\",\"options\":{\"maxTokens\":100,\"repeatPenalty\":1.1,\
         \"repeatPenaltyLastNTokenCount\":64,\"temperature\":0.8,\"topK\":40,\"topP\":0.9},\"prompt\":\"p\"}"
    );
    assert_eq!(
        frame_embed_body(&names(&["1", "2", "3"]), &"M".to_string()),
        "{\"input\":[1,2,3],\"model\":M}"
    );
}

#[test]
fn base_that_does_not_parse_is_a_runtime_error() {
    let mut e = RemoteHttpLlmEngine::new("not a url".to_string(), "tok".to_string());
    e.set_allowed_models(names(&["m"]));
    let expected = Some(LlmError::RuntimeError("failed to create URL".to_string()));
    assert_eq!(e.prepare_infer(&"m".to_string(), &"p".to_string(), &params()).err(), expected);
}

#[test]
fn base_with_a_path_is_joined_from_the_root() {
    let mut e = RemoteHttpLlmEngine::new("https://example.com/api/v1".to_string(), "tok".to_string());
    e.set_allowed_models(names(&["m"]));
    let req = e.prepare_infer(&"m".to_string(), &"p".to_string(), &params()).unwrap();
    assert_eq!(req.url, "https://example.com/infer");
}

#[test]
fn status_other_than_ok_is_a_runtime_error() {
    assert!(accepts_status(200));
    assert!(!accepts_status(201));
    assert!(!accepts_status(500));
    let r = finish_reply::<InferencingResult>(Reply::BadStatus(503));
    assert_eq!(r.err(), Some(LlmError::RuntimeError("unexpected response status: 503".to_string())));
    let r = finish_reply::<InferencingResult>(Reply::BadStatus(404));
    assert_eq!(r.err(), Some(LlmError::RuntimeError("unexpected response status: 404".to_string())));
}

#[test]
fn request_texts_are_escaped() {
    let mut e = engine("tok");
    e.set_allowed_models(names(&["m"]));
    let req = e
        .prepare_embeddings(&"m".to_string(), &names(&["a\\b", "\u{1}\u{8}\t\u{c}\r\u{1f}", "\u{7f}\u{e9}/"]))
        .unwrap();
    assert_eq!(
        req.body,
        "{\"input\":[\"a\\\\b\",\"\\u0001\\b\\t\\f\\r\\u001f\",\"\u{7f}\u{e9}/\"],\"model\":\"m\"}"
    );
}
