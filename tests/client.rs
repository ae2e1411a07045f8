use anthropic_client::client::{
    prepare_image_request, prepare_text_request, response_text, Anthropic, ConfigError,
    TransportError, TransportOutcome, DEFAULT_MAX_TOKENS,
};
use anthropic_client::encoding::{decode_base64, encode_base64};
use anthropic_client::json::{
    frame_image_block, frame_message, frame_request, message_to_json, push_decimal, request_body,
};
use anthropic_client::message::{build_text_message, build_vision_message, Content, ContentBlock, Role};

fn s(v: &str) -> Option<String> {
    Some(v.to_string())
}

fn sample_client() -> Anthropic {
    Anthropic::new(s("key-123"), s("https://api.example.com/v1/messages"), s("2023-06-01")).unwrap()
}

fn ok_response(body: &str) -> TransportOutcome {
    TransportOutcome::Response { status: 200, body: body.to_string() }
}

#[test]
fn test_send_text_request() {
    let content = "Hello, Anthropic! My name is sivanliao.";
    let model = "opus-3-20240229";
    let anthropic_client = sample_client();
    let messages = build_text_message(content);
    let request = anthropic_client.messages.create(&anthropic_client, model, 1024, &messages);
    assert_eq!(
        request.body,
        "{\"max_tokens\":1024,\"messages\":[{\"content\":\"Hello, Anthropic! My name is sivanliao.\",\"role\":\"user\"}],\"model\":\"opus-3-20240229\"}"
    );
    match response_text(ok_response("{\"id\":\"msg_1\"}")) {
        Ok(response) => {
            println!("{:?}", response);
            assert!(!response.is_empty());
        }
        Err(error) => {
            panic!("Error: {}", error.cause);
        }
    }
}

#[test]
fn test_send_image_request() {
    let image = vec![0xffu8, 0xd8, 0xff, 0xe0];
    let image_media_type = "image/jpeg";
    let model = "opus-3-20240229";
    let anthropic_client = sample_client();
    let pack_messages = Anthropic::pack_vision_content(&image, image_media_type);
    let request = anthropic_client.messages.create(&anthropic_client, model, 1024, &pack_messages);
    assert_eq!(
        request.body,
        "{\"max_tokens\":1024,\"messages\":[{\"content\":[{\"source\":{\"data\":\"/9j/4A==\",\"media_type\":\"image/jpeg\",\"type\":\"base64\"},\"type\":\"image\"}],\"role\":\"user\"}],\"model\":\"opus-3-20240229\"}"
    );
    match response_text(ok_response("{\"id\":\"msg_2\"}")) {
        Ok(response) => {
            println!("{:?}", response);
            assert!(!response.is_empty());
        }
        Err(error) => {
            panic!("Error: {}", error.cause);
        }
    }
}

#[test]
fn text_message_has_one_user_entry() {
    let m = build_text_message("hi");
    assert_eq!(m.len(), 1);
    assert_eq!(m[0].role, Role::User);
    assert_eq!(m[0].content, Content::Text("hi".to_string()));
    assert_eq!(message_to_json(&m[0]), "{\"content\":\"hi\",\"role\":\"user\"}");
}

#[test]
fn vision_message_golden_json() {
    let m = build_vision_message("AAAA", "image/jpeg");
    assert_eq!(m.len(), 1);
    assert_eq!(m[0].role, Role::User);
    assert_eq!(
        m[0].content,
        Content::Blocks(vec![ContentBlock::Image {
            media_type: "image/jpeg".to_string(),
            data: "AAAA".to_string(),
        }])
    );
    assert_eq!(
        message_to_json(&m[0]),
        "{\"content\":[{\"source\":{\"data\":\"AAAA\",\"media_type\":\"image/jpeg\",\"type\":\"base64\"},\"type\":\"image\"}],\"role\":\"user\"}"
    );
}

#[test]
fn base64_round_trip_of_zero_bytes() {
    let text = encode_base64(&[0u8, 0, 0]);
    assert_eq!(text, "AAAA");
    assert_eq!(decode_base64(&text), Some(vec![0u8, 0, 0]));
}

#[test]
fn base64_padding() {
    assert_eq!(encode_base64(b"Man"), "TWFu");
    assert_eq!(encode_base64(b"Ma"), "TWE=");
    assert_eq!(encode_base64(b"M"), "TQ==");
    assert_eq!(encode_base64(b""), "");
    assert_eq!(decode_base64("TWE="), Some(b"Ma".to_vec()));
}

#[test]
fn base64_rejects_non_canonical_text() {
    assert_eq!(decode_base64("TWE"), None);
    assert_eq!(decode_base64("TWF="), None);
    assert_eq!(decode_base64("T*=="), None);
}

#[test]
fn server_error_status_still_returns_body() {
    let outcome = TransportOutcome::Response { status: 500, body: "error".to_string() };
    assert_eq!(response_text(outcome), Ok("error".to_string()));
}

#[test]
fn refused_connection_is_a_transport_error() {
    let outcome = TransportOutcome::Failed { cause: "connection refused".to_string() };
    assert_eq!(
        response_text(outcome),
        Err(TransportError { cause: "connection refused".to_string() })
    );
}

#[test]
fn missing_configuration_values_are_named() {
    assert_eq!(Anthropic::new(None, s("u"), s("v")).unwrap_err(), ConfigError::MissingApiKey);
    assert_eq!(Anthropic::new(s("k"), None, s("v")).unwrap_err(), ConfigError::MissingApiUrl);
    assert_eq!(Anthropic::new(s("k"), s("u"), None).unwrap_err(), ConfigError::MissingApiVersion);
    assert_eq!(Anthropic::new(None, None, None).unwrap_err(), ConfigError::MissingApiKey);
}

#[test]
fn empty_configuration_values_are_missing() {
    assert_eq!(Anthropic::new(s(""), s("u"), s("v")).unwrap_err(), ConfigError::MissingApiKey);
    assert_eq!(Anthropic::new(s("k"), s(""), s("v")).unwrap_err(), ConfigError::MissingApiUrl);
    assert_eq!(Anthropic::new(s("k"), s("u"), s("")).unwrap_err(), ConfigError::MissingApiVersion);
}

#[test]
fn getters_return_configuration() {
    let c = sample_client();
    assert_eq!(c.get_api_key(), "key-123");
    assert_eq!(c.get_api_url(), "https://api.example.com/v1/messages");
    assert_eq!(c.get_api_version(), "2023-06-01");
}

#[test]
fn request_carries_url_and_headers() {
    let c = sample_client();
    let r = prepare_text_request(&c, "hi", "m");
    assert_eq!(r.url, "https://api.example.com/v1/messages");
    assert_eq!(
        r.headers,
        vec![
            ("x-api-key".to_string(), "key-123".to_string()),
            ("anthropic-version".to_string(), "2023-06-01".to_string()),
            ("content-type".to_string(), "application/json".to_string()),
        ]
    );
    assert_eq!(
        r.body,
        "{\"max_tokens\":1024,\"messages\":[{\"content\":\"hi\",\"role\":\"user\"}],\"model\":\"m\"}"
    );
}

#[test]
fn image_request_embeds_encoded_bytes() {
    let c = sample_client();
    let r = prepare_image_request(&c, &[0u8, 0, 0], "image/png", "m");
    assert_eq!(
        r.body,
        "{\"max_tokens\":1024,\"messages\":[{\"content\":[{\"source\":{\"data\":\"AAAA\",\"media_type\":\"image/png\",\"type\":\"base64\"},\"type\":\"image\"}],\"role\":\"user\"}],\"model\":\"m\"}"
    );
}

#[test]
fn text_is_escaped_in_json() {
    let m = build_text_message("say \"hi\"\n\\");
    assert_eq!(message_to_json(&m[0]), "{\"content\":\"say \\\"hi\\\"\\n\\\\\",\"role\":\"user\"}");
}

#[test]
fn body_matches_serde_json_encoding() {
    let m = build_text_message("a\tb");
    let body = request_body("model-x", 7, &m);
    let parsed: serde_json::Value = serde_json::from_str(&body).unwrap();
    assert_eq!(serde_json::to_string(&parsed).unwrap(), body);
    assert_eq!(parsed["max_tokens"], serde_json::Value::from(7));
    assert_eq!(parsed["messages"][0]["content"], serde_json::Value::from("a\tb"));
}

#[test]
fn empty_message_list_and_many_messages() {
    assert_eq!(request_body("m", 1, &[]), "{\"max_tokens\":1,\"messages\":[],\"model\":\"m\"}");
    let mut ms = build_text_message("a");
    ms.extend(build_text_message("b"));
    assert_eq!(
        request_body("m", 1, &ms),
        "{\"max_tokens\":1,\"messages\":[{\"content\":\"a\",\"role\":\"user\"},{\"content\":\"b\",\"role\":\"user\"}],\"model\":\"m\"}"
    );
}

#[test]
fn decimal_forms() {
    for (n, t) in [(0usize, "0"), (9, "9"), (10, "10"), (1024, "1024"), (usize::MAX, "18446744073709551615")] {
        let mut out = "x".to_string();
        push_decimal(&mut out, n);
        assert_eq!(out, format!("x{}", t));
    }
    assert_eq!(DEFAULT_MAX_TOKENS, 1024);
}

#[test]
fn frames_hold_given_json_parts() {
    assert_eq!(
        frame_request(12, "", "\"m\""),
        "{\"max_tokens\":12,\"messages\":[],\"model\":\"m\"}"
    );
    assert_eq!(frame_message("[]", Role::Assistant), "{\"content\":[],\"role\":\"assistant\"}");
    assert_eq!(
        frame_image_block("\"d\"", "\"image/gif\""),
        "{\"source\":{\"data\":\"d\",\"media_type\":\"image/gif\",\"type\":\"base64\"},\"type\":\"image\"}"
    );
}
