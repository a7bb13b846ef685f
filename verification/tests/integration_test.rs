use elevenlabs_sfx::Decimal;
use elevenlabs_sfx::ElevenLabsSFXClient;
use elevenlabs_sfx::ElevenLabsSFXError;

#[test]
fn lib_test_client_creation() {
    let client = ElevenLabsSFXClient::new("test-key".to_string());
    assert_eq!(client.api_key, "test-key");
}

#[test]
fn lib_test_builder_pattern() {
    let client = ElevenLabsSFXClient::new("test-key".to_string());
    let builder = client
        .sound_effects("TV-VHS glitch transition".to_string())
        .output_format("mp3_44100_128".to_string())
        .duration_seconds(Decimal::from_thousandths(3000))
        .prompt_influence(Decimal::from_thousandths(600));

    // Builder pattern works
    assert_eq!(builder.text, "TV-VHS glitch transition");
    assert_eq!(builder.output_format, Some("mp3_44100_128".to_string()));
    assert_eq!(builder.duration_seconds, Some(Decimal::from_thousandths(3000)));
    assert_eq!(builder.prompt_influence, Some(Decimal::from_thousandths(600)));
}

#[test]
fn integration_test_test_client_creation() {
    let _client = ElevenLabsSFXClient::new("test-api-key".to_string());
    // Just test that it doesn't panic
    assert_eq!(true, true);
}

#[test]
fn integration_test_test_builder_pattern() {
    let client = ElevenLabsSFXClient::new("test-key".to_string());
    let _builder = client.sound_effects("Stone scrape".to_string());

    // Test that builder methods are chainable
    assert_eq!(true, true); // Builder pattern works if this compiles
}

#[test]
fn test_error_display() {
    let error = ElevenLabsSFXError::ValidationError("Invalid output format".to_string());
    let display = error.render();
    assert!(display.contains("Validation error"));
    assert!(display.contains("Invalid output format"));
}

#[test]
fn test_invalid_api_key_error() {
    let _client = ElevenLabsSFXClient::new("invalid-key".to_string());

    // This would normally fail with auth error, but we can't test without real API
    // For now, just test that the client can be created
    assert_eq!(true, true);
}
