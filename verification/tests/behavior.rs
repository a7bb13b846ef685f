use elevenlabs_sfx::interpret_response;
use elevenlabs_sfx::Decimal;
use elevenlabs_sfx::ElevenLabsSFXClient;
use elevenlabs_sfx::ElevenLabsSFXError;

#[test]
fn defaults_on_fresh_builder() {
    let client = ElevenLabsSFXClient::new("k".to_string());
    let (_c, req) = client.sound_effects("ocean waves".to_string()).finalize();
    assert_eq!(req.text, "ocean waves");
    assert_eq!(req.output_format, Some("mp3_44100_128".to_string()));
    assert_eq!(req.duration_seconds, None);
    assert_eq!(req.prompt_influence, None);
}

#[test]
fn last_setter_wins_in_any_order() {
    let client = ElevenLabsSFXClient::new("k".to_string());
    let b = client
        .sound_effects("door creak".to_string())
        .duration_seconds(Decimal::from_thousandths(1000))
        .output_format("pcm_16000".to_string())
        .prompt_influence(Decimal::from_thousandths(100))
        .output_format("ulaw_8000".to_string())
        .duration_seconds(Decimal::from_thousandths(2500));
    assert_eq!(b.output_format, Some("ulaw_8000".to_string()));
    assert_eq!(b.duration_seconds, Some(Decimal::from_thousandths(2500)));
    assert_eq!(b.prompt_influence, Some(Decimal::from_thousandths(100)));
    let (_c, req) = b.finalize();
    assert_eq!(req.output_format, Some("ulaw_8000".to_string()));
    assert_eq!(req.duration_seconds, Some(Decimal::from_thousandths(2500)));
    assert_eq!(req.prompt_influence, Some(Decimal::from_thousandths(100)));
}

#[test]
fn status_401_renders_authentication_failed() {
    let e = interpret_response(401, b"any body at all".to_vec()).err().unwrap();
    let msg = e.render();
    assert!(msg.contains("Authentication failed"));
    assert_eq!(msg, "Authentication failed: Invalid API key");
}

#[test]
fn status_429_renders_rate_limit_without_retry_time() {
    let e = interpret_response(429, Vec::new()).err().unwrap();
    let msg = e.render();
    assert!(msg.contains("Rate limit exceeded"));
    assert!(!msg.contains("retry in"));
    assert_eq!(msg, "Rate limit exceeded: Too many requests");
}

#[test]
fn status_402_renders_quota_exceeded() {
    let e = interpret_response(402, b"ignored".to_vec()).err().unwrap();
    let msg = e.render();
    assert!(msg.contains("Quota exceeded"));
    assert_eq!(msg, "Quota exceeded: Insufficient credits");
}

#[test]
fn success_returns_body_unaltered() {
    let r = interpret_response(200, Vec::new()).unwrap();
    assert_eq!(r, Vec::<u8>::new());

    let small: Vec<u8> = (0u32..600).map(|i| (i % 251) as u8).collect();
    let r = interpret_response(204, small.clone()).unwrap();
    assert_eq!(r, small);

    let large: Vec<u8> = (0u32..1_500_000).map(|i| (i % 256) as u8).collect();
    let r = interpret_response(299, large.clone()).unwrap();
    assert_eq!(r, large);
}

#[test]
fn other_status_renders_api_error_with_body_text() {
    let e = interpret_response(500, b"Server error".to_vec()).err().unwrap();
    assert_eq!(e.render(), "API error (500): Server error");

    let e = interpret_response(418, Vec::new()).err().unwrap();
    assert_eq!(e.render(), "API error (418): ");
}

#[test]
fn validation_error_rendering() {
    let e = ElevenLabsSFXError::ValidationError("Invalid output format".to_string());
    let msg = e.render();
    assert!(msg.contains("Validation error"));
    assert!(msg.contains("Invalid output format"));
    assert_eq!(msg, "Validation error: Invalid output format");
}

#[test]
fn transport_and_parse_rendering() {
    let e = ElevenLabsSFXError::RequestError("connection refused".to_string());
    assert_eq!(e.render(), "Request failed: connection refused");
    let e = ElevenLabsSFXError::ParseError("unexpected end of input".to_string());
    assert_eq!(e.render(), "Failed to parse response: unexpected end of input");
}

#[test]
fn rate_limit_with_explicit_retry_time_rendering() {
    let e = ElevenLabsSFXError::RateLimitError {
        retry_after: Some(5),
        message: "slow down".to_string(),
    };
    assert_eq!(e.render(), "Rate limit exceeded (retry in 5s): slow down");
    let e = ElevenLabsSFXError::RateLimitError {
        retry_after: None,
        message: "slow down".to_string(),
    };
    assert_eq!(e.render(), "Rate limit exceeded: slow down");
}

#[test]
fn source_exposes_underlying_cause() {
    let e = ElevenLabsSFXError::RequestError("connection refused".to_string());
    assert_eq!(e.source(), Some(&"connection refused".to_string()));
    let e = ElevenLabsSFXError::ParseError("bad payload".to_string());
    assert_eq!(e.source(), Some(&"bad payload".to_string()));
    let e = ElevenLabsSFXError::ValidationError("x".to_string());
    assert_eq!(e.source(), None);
    let e = ElevenLabsSFXError::ApiError { status: 500, message: "y".to_string() };
    assert_eq!(e.source(), None);
}

#[test]
fn api_error_status_rendering() {
    let e = ElevenLabsSFXError::ApiError { status: 503, message: "unavailable".to_string() };
    assert_eq!(e.render(), "API error (503): unavailable");
    let e = ElevenLabsSFXError::ApiError { status: 0, message: "x".to_string() };
    assert_eq!(e.render(), "API error (0): x");
}

#[test]
fn json_body_with_all_fields() {
    let client = ElevenLabsSFXClient::new("k".to_string());
    let (_c, req) = client
        .sound_effects("Ghost Breath Wind".to_string())
        .output_format("mp3_44100_128".to_string())
        .duration_seconds(Decimal::from_thousandths(4500))
        .prompt_influence(Decimal::from_thousandths(600))
        .finalize();
    assert_eq!(
        req.to_json(),
        "{\"text\":\"Ghost Breath Wind\",\"output_format\":\"mp3_44100_128\",\"duration_seconds\":4.500,\"prompt_influence\":0.600}"
    );
}

#[test]
fn json_body_with_defaults_only() {
    let client = ElevenLabsSFXClient::new("k".to_string());
    let (_c, req) = client.sound_effects("rain".to_string()).finalize();
    assert_eq!(req.to_json(), "{\"text\":\"rain\",\"output_format\":\"mp3_44100_128\"}");
}

#[test]
fn json_escapes_special_characters() {
    let client = ElevenLabsSFXClient::new("k".to_string());
    let (_c, req) = client.sound_effects("a \"loud\" bang\\crash\nnext".to_string()).finalize();
    assert_eq!(
        req.to_json(),
        "{\"text\":\"a \\\"loud\\\" bang\\\\crash\\u000Anext\",\"output_format\":\"mp3_44100_128\"}"
    );
}

#[test]
fn json_body_of_large_numbers() {
    let client = ElevenLabsSFXClient::new("k".to_string());
    let (_c, req) = client
        .sound_effects("hum".to_string())
        .duration_seconds(Decimal::from_thousandths(22000))
        .prompt_influence(Decimal::from_thousandths(0))
        .finalize();
    assert_eq!(
        req.to_json(),
        "{\"text\":\"hum\",\"output_format\":\"mp3_44100_128\",\"duration_seconds\":22.000,\"prompt_influence\":0.000}"
    );
}

#[test]
fn sound_generation_url_appends_path() {
    let client = ElevenLabsSFXClient::with_base_url(
        "k".to_string(),
        "http://localhost:8080/v1".to_string(),
    );
    assert_eq!(client.sound_generation_url(), "http://localhost:8080/v1/sound-generation");
    let client = ElevenLabsSFXClient::new("k".to_string());
    assert_eq!(client.sound_generation_url(), "https://api.elevenlabs.io/v1/sound-generation");
}

#[test]
fn independent_builders_do_not_interfere() {
    let client = ElevenLabsSFXClient::new("k".to_string());
    let requests: Vec<_> = (0u64..8)
        .map(|i| {
            client
                .sound_effects(format!("effect {}", i))
                .duration_seconds(Decimal::from_thousandths(500 + i))
                .finalize()
                .1
        })
        .collect();
    for (i, r) in requests.iter().enumerate() {
        assert_eq!(r.text, format!("effect {}", i));
        assert_eq!(r.duration_seconds, Some(Decimal::from_thousandths(500 + i as u64)));
        assert_eq!(r.prompt_influence, None);
    }
}
