use std::time::Duration;
use typecast_rust::client::{
    audio_format_for, encode, is_success, request_headers, tts_response, voice_result,
    voices_result,
};
use typecast_rust::{
    AudioFormat, ClientConfig, ErrorResponse, Gender, ModelInfoWire, TTSModel, TypecastClient,
    TypecastError, VoiceV2Wire, VoicesV2Filter, DEFAULT_BASE_URL, DEFAULT_TIMEOUT_SECS,
};

fn stub_client() -> TypecastClient {
    TypecastClient::new(ClientConfig::new("test-key-123456").base_url("http://127.0.0.1:9"))
        .expect("client builds")
}

fn female_voice(id: &str) -> VoiceV2Wire {
    VoiceV2Wire {
        voice_id: id.to_string(),
        voice_name: format!("voice {}", id),
        models: vec![ModelInfoWire { version: "ssfm-v30".to_string(), emotions: vec![] }],
        gender: Some("female".to_string()),
        age: None,
        use_cases: None,
    }
}

#[test]
fn query_encoding() {
    assert_eq!(encode("a b&c"), "a%20b%26c");
    assert_eq!(encode("abc-123_.~"), "abc-123_.~");
    assert_eq!(encode("é/?"), "%C3%A9%2F%3F");
    assert_eq!(encode(""), "");
}

#[test]
fn config_defaults_and_setters() {
    let c = ClientConfig::new("key");
    assert_eq!(c.api_key, "key");
    assert_eq!(c.base_url, DEFAULT_BASE_URL);
    assert_eq!(c.timeout, Duration::from_secs(DEFAULT_TIMEOUT_SECS));
    let c = c.base_url("http://localhost:8080").timeout(Duration::from_secs(120));
    assert_eq!(c.base_url, "http://localhost:8080");
    assert_eq!(c.timeout, Duration::from_secs(120));
    let e = ClientConfig::from_env_values(None, None);
    assert_eq!(e.timeout, Duration::from_secs(60));
    assert_eq!(e.api_key, "");
    assert_eq!(e.base_url, "https://api.typecast.ai");
    let e = ClientConfig::from_env_values(Some("k".to_string()), Some("http://h".to_string()));
    assert_eq!(e.api_key, "k");
    assert_eq!(e.base_url, "http://h");
}

#[test]
fn client_refuses_bad_key_before_sending() {
    match TypecastClient::with_api_key("bad\nkey") {
        Err(TypecastError::BadRequest { detail }) => assert_eq!(detail, "Invalid API key format"),
        other => panic!("expected BadRequest, got {:?}", other.map(|_| ())),
    }
    let c = TypecastClient::with_api_key("good-key").expect("client builds");
    assert_eq!(c.base_url(), "https://api.typecast.ai");
}

#[test]
fn masked_api_key() {
    assert_eq!(stub_client().api_key_masked(), "test...3456");
    let short = TypecastClient::with_api_key("short").expect("client builds");
    assert_eq!(short.api_key_masked(), "****");
}

#[test]
fn urls() {
    let c = stub_client();
    assert_eq!(c.tts_url(), "http://127.0.0.1:9/v1/text-to-speech");
    assert_eq!(c.voice_url("tc_abc"), "http://127.0.0.1:9/v2/voices/tc_abc");
    assert_eq!(c.voices_url(None), "http://127.0.0.1:9/v2/voices");
    assert_eq!(c.voices_url(Some(VoicesV2Filter::new())), "http://127.0.0.1:9/v2/voices");
    let f = VoicesV2Filter::new().model(TTSModel::SsfmV30).gender(Gender::Female);
    assert_eq!(
        c.voices_url(Some(f)),
        "http://127.0.0.1:9/v2/voices?model=ssfm-v30&gender=female"
    );
    let params = vec![
        ("q".to_string(), "a b".to_string()),
        ("r".to_string(), "x&y".to_string()),
    ];
    assert_eq!(c.build_url("/p", &params), "http://127.0.0.1:9/p?q=a%20b&r=x%26y");
}

#[test]
fn tts_success_assembles_response() {
    assert!(is_success(200) && is_success(299));
    assert!(!is_success(199) && !is_success(300) && !is_success(404));
    let body = vec![0x52, 0x49, 0x46, 0x46, 0x24, 0x00, 0x00, 0x00];
    let r = tts_response(Some("audio/wav"), Duration::from_millis(2500), body);
    assert_eq!(r.format, AudioFormat::Wav);
    assert_eq!(r.duration.as_secs_f64(), 2.5);
    assert_eq!(&r.audio_data[0..4], b"RIFF");
}

#[test]
fn content_type_picks_format() {
    assert_eq!(audio_format_for(Some("audio/mp3")), AudioFormat::Mp3);
    assert_eq!(audio_format_for(Some("audio/mpeg")), AudioFormat::Mp3);
    assert_eq!(audio_format_for(Some("audio/wav")), AudioFormat::Wav);
    assert_eq!(audio_format_for(Some("application/octet-stream")), AudioFormat::Wav);
    assert_eq!(audio_format_for(Some("mp")), AudioFormat::Wav);
    assert_eq!(audio_format_for(None), AudioFormat::Wav);
}

#[test]
fn not_found_carries_detail() {
    let e = TypecastError::from_response(
        404,
        Some(ErrorResponse { detail: "voice not found".to_string() }),
    );
    match e {
        TypecastError::NotFound { detail } => assert_eq!(detail, "voice not found"),
        other => panic!("expected NotFound, got {:?}", other),
    }
}

#[test]
fn filtered_voice_list() {
    let c = stub_client();
    let url = c.voices_url(Some(VoicesV2Filter::new().gender(Gender::Female)));
    assert!(url.contains("gender=female"));
    let voices =
        voices_result(Ok(vec![female_voice("tc_1"), female_voice("tc_2")])).expect("decodes");
    assert_eq!(voices.len(), 2);
    assert_eq!(voices[0].voice_id, "tc_1");
    assert_eq!(voices[1].voice_id, "tc_2");
    assert!(voices.iter().all(|v| v.gender == Some(Gender::Female)));
}

#[test]
fn malformed_body_is_json_error() {
    let parse_error = serde_json::from_str::<serde_json::Value>("{\"voice_id\": ").unwrap_err();
    match voices_result(Err(parse_error)) {
        Err(e @ TypecastError::JsonError(_)) => assert_eq!(e.status_code(), None),
        other => panic!("expected JsonError, got {:?}", other.map(|v| v.len())),
    }
    let mut odd = female_voice("tc_9");
    odd.gender = Some("robot".to_string());
    assert!(matches!(voices_result(Ok(vec![odd])), Err(TypecastError::JsonError(_))));
    let parse_error = serde_json::from_str::<serde_json::Value>("not json").unwrap_err();
    assert!(matches!(voice_result(Err(parse_error)), Err(TypecastError::JsonError(_))));
    let v = voice_result(Ok(female_voice("tc_5"))).expect("decodes");
    assert_eq!(v.voice_id, "tc_5");
}

#[test]
fn default_request_headers() {
    assert_eq!(
        request_headers("secret-key"),
        vec![
            ("content-type".to_string(), "application/json".to_string()),
            ("x-api-key".to_string(), "secret-key".to_string()),
        ]
    );
}
