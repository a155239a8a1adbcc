use weather::audio_conversion::TranscodeStep;
use weather::google_tts::{
    build_tts_request_body, GoogleTts, GoogleVoice, HttpOutcome,
};
use weather::tts::{AudioFormat, SynthesisPlan, TtsError, Voice};

#[test]
fn voice_names_and_language_codes() {
    assert_eq!(GoogleVoice::Default.google_voice_name(), "en-US-Neural2-F");
    assert_eq!(GoogleVoice::UsFemale.google_voice_name(), "en-US-Neural2-F");
    assert_eq!(GoogleVoice::UsMale.google_voice_name(), "en-US-Neural2-D");
    assert_eq!(GoogleVoice::UkFemale.google_voice_name(), "en-GB-Neural2-A");
    assert_eq!(GoogleVoice::UkMale.google_voice_name(), "en-GB-Neural2-B");
    assert_eq!(GoogleVoice::Default.language_code(), "en-US");
    assert_eq!(GoogleVoice::UsFemale.language_code(), "en-US");
    assert_eq!(GoogleVoice::UsMale.language_code(), "en-US");
    assert_eq!(GoogleVoice::UkFemale.language_code(), "en-GB");
    assert_eq!(GoogleVoice::UkMale.language_code(), "en-GB");
}

#[test]
fn voice_presets_map_across() {
    assert_eq!(GoogleVoice::from(Voice::Default), GoogleVoice::Default);
    assert_eq!(GoogleVoice::from(Voice::UsFemale), GoogleVoice::UsFemale);
    assert_eq!(GoogleVoice::from(Voice::UsMale), GoogleVoice::UsMale);
    assert_eq!(GoogleVoice::from(Voice::UkFemale), GoogleVoice::UkFemale);
    assert_eq!(GoogleVoice::from(Voice::UkMale), GoogleVoice::UkMale);
}

#[test]
fn encodings_for_the_request_protocol() {
    let tts = GoogleTts::new("k".to_string(), GoogleVoice::Default);
    assert_eq!(tts.audio_format_to_google_encoding(&AudioFormat::Mp3).unwrap(), "MP3");
    assert_eq!(tts.audio_format_to_google_encoding(&AudioFormat::Wav).unwrap(), "LINEAR16");
    assert_eq!(tts.audio_format_to_google_encoding(&AudioFormat::Ogg).unwrap(), "OGG_OPUS");
    assert_eq!(tts.audio_format_to_google_encoding(&AudioFormat::Ulaw).unwrap(), "MULAW");
    assert_eq!(tts.audio_format_to_google_encoding(&AudioFormat::Alaw).unwrap(), "ALAW");
    match tts.audio_format_to_google_encoding(&AudioFormat::Gsm).unwrap_err() {
        TtsError::AudioConversionError(m) => {
            assert_eq!(m, "GSM format not directly supported by Google TTS. Use WAV and convert to GSM.");
        }
        other => panic!("unexpected error: {:?}", other),
    }
}

#[test]
fn request_body_is_exact_json() {
    let body = build_tts_request_body("hi", "en-US", "en-US-Neural2-F", "MP3", 22050);
    assert_eq!(
        body,
        "{\"input\":{\"text\":\"hi\"},\
         \"voice\":{\"languageCode\":\"en-US\",\"name\":\"en-US-Neural2-F\"},\
         \"audioConfig\":{\"audioEncoding\":\"MP3\",\"sampleRateHertz\":22050}}"
    );
}

#[test]
fn request_body_escapes_text() {
    let body = build_tts_request_body("a\"b\\c\nd\u{1}", "en-US", "v", "MP3", 8000);
    assert_eq!(
        body,
        "{\"input\":{\"text\":\"a\\\"b\\\\c\\nd\\u0001\"},\
         \"voice\":{\"languageCode\":\"en-US\",\"name\":\"v\"},\
         \"audioConfig\":{\"audioEncoding\":\"MP3\",\"sampleRateHertz\":8000}}"
    );
}

#[test]
fn prepared_request_for_native_target() {
    let tts = GoogleTts::new("secret-key".to_string(), GoogleVoice::UkMale);
    let request = tts.prepare_synthesis("wind calm", &AudioFormat::Ogg);
    assert_eq!(
        request.url,
        "https://texttospeech.googleapis.com/v1/text:synthesize?key=secret-key"
    );
    assert_eq!(request.plan, SynthesisPlan::Native { format: AudioFormat::Ogg });
    assert_eq!(
        request.body,
        "{\"input\":{\"text\":\"wind calm\"},\
         \"voice\":{\"languageCode\":\"en-GB\",\"name\":\"en-GB-Neural2-B\"},\
         \"audioConfig\":{\"audioEncoding\":\"OGG_OPUS\",\"sampleRateHertz\":22050}}"
    );
}

#[test]
fn prepared_request_for_gsm_asks_for_wav_at_8k() {
    let tts = GoogleTts::new("k".to_string(), GoogleVoice::Default);
    let request = tts.prepare_synthesis("gusty", &AudioFormat::Gsm);
    assert_eq!(
        request.plan,
        SynthesisPlan::Transcode {
            intermediate: AudioFormat::Wav,
            sample_rate: 8000,
            target: AudioFormat::Gsm,
        }
    );
    assert_eq!(
        request.body,
        "{\"input\":{\"text\":\"gusty\"},\
         \"voice\":{\"languageCode\":\"en-US\",\"name\":\"en-US-Neural2-F\"},\
         \"audioConfig\":{\"audioEncoding\":\"LINEAR16\",\"sampleRateHertz\":8000}}"
    );
}

#[test]
fn native_telephony_formats_request_8k() {
    let tts = GoogleTts::new("k".to_string(), GoogleVoice::Default);
    let request = tts.prepare_synthesis("t", &AudioFormat::Ulaw);
    assert_eq!(request.plan, SynthesisPlan::Native { format: AudioFormat::Ulaw });
    assert!(request.body.contains("\"audioEncoding\":\"MULAW\""));
    assert!(request.body.contains("\"sampleRateHertz\":8000"));
}

#[test]
fn request_failure_becomes_synthesis_error() {
    let tts = GoogleTts::new("k".to_string(), GoogleVoice::Default);
    let plan = SynthesisPlan::Native { format: AudioFormat::Mp3 };
    let step = tts.handle_synthesis_response(
        HttpOutcome::RequestFailed { error: "connection refused".to_string() },
        &plan,
    );
    match step {
        TranscodeStep::Done { result } => match result.unwrap_err() {
            TtsError::SynthesisError(m) => {
                assert_eq!(m, "HTTP request failed: connection refused");
            }
            other => panic!("unexpected error: {:?}", other),
        },
        TranscodeStep::RunTool { .. } => panic!("a failed request plans no tool"),
    }
}

#[test]
fn non_success_response_surfaces_the_body() {
    let tts = GoogleTts::new("k".to_string(), GoogleVoice::Default);
    let plan = SynthesisPlan::Native { format: AudioFormat::Mp3 };
    let step = tts.handle_synthesis_response(
        HttpOutcome::Response { success: false, body: "{\"error\":\"quota\"}".to_string() },
        &plan,
    );
    match step {
        TranscodeStep::Done { result } => match result.unwrap_err() {
            TtsError::SynthesisError(m) => {
                assert_eq!(m, "Google TTS API error: {\"error\":\"quota\"}");
            }
            other => panic!("unexpected error: {:?}", other),
        },
        TranscodeStep::RunTool { .. } => panic!("an API error plans no tool"),
    }
}

#[test]
fn malformed_response_body_is_a_parse_error() {
    let tts = GoogleTts::new("k".to_string(), GoogleVoice::Default);
    let plan = SynthesisPlan::Native { format: AudioFormat::Mp3 };
    let step = tts.handle_synthesis_response(
        HttpOutcome::Response { success: true, body: "not json".to_string() },
        &plan,
    );
    match step {
        TranscodeStep::Done { result } => match result.unwrap_err() {
            TtsError::SynthesisError(m) => {
                assert!(m.starts_with("Failed to parse response: "), "message: {}", m);
            }
            other => panic!("unexpected error: {:?}", other),
        },
        TranscodeStep::RunTool { .. } => panic!("a parse failure plans no tool"),
    }
}

#[test]
fn response_without_audio_content_is_a_parse_error() {
    let tts = GoogleTts::new("k".to_string(), GoogleVoice::Default);
    let plan = SynthesisPlan::Native { format: AudioFormat::Mp3 };
    let step = tts.handle_synthesis_response(
        HttpOutcome::Response { success: true, body: "{\"other\":1}".to_string() },
        &plan,
    );
    match step {
        TranscodeStep::Done { result } => match result.unwrap_err() {
            TtsError::SynthesisError(m) => {
                assert!(m.starts_with("Failed to parse response: "), "message: {}", m);
            }
            other => panic!("unexpected error: {:?}", other),
        },
        TranscodeStep::RunTool { .. } => panic!("a parse failure plans no tool"),
    }
}

#[test]
fn invalid_base64_is_a_decode_error() {
    let tts = GoogleTts::new("k".to_string(), GoogleVoice::Default);
    let plan = SynthesisPlan::Native { format: AudioFormat::Mp3 };
    let step = tts.handle_synthesis_response(
        HttpOutcome::Response { success: true, body: "{\"audioContent\":\"!!!\"}".to_string() },
        &plan,
    );
    match step {
        TranscodeStep::Done { result } => match result.unwrap_err() {
            TtsError::SynthesisError(m) => {
                assert!(m.starts_with("Failed to decode audio: "), "message: {}", m);
            }
            other => panic!("unexpected error: {:?}", other),
        },
        TranscodeStep::RunTool { .. } => panic!("a decode failure plans no tool"),
    }
}

#[test]
fn audio_content_is_decoded_not_passed_through() {
    // "aGVsbG8=" is the base64 encoding of "hello": the handler must hand
    // back the decoded bytes, not the base64 text.
    let tts = GoogleTts::new("k".to_string(), GoogleVoice::Default);
    let plan = SynthesisPlan::Native { format: AudioFormat::Mp3 };
    let step = tts.handle_synthesis_response(
        HttpOutcome::Response {
            success: true,
            body: "{\"audioContent\":\"aGVsbG8=\"}".to_string(),
        },
        &plan,
    );
    match step {
        TranscodeStep::Done { result } => assert_eq!(result.unwrap(), b"hello"),
        TranscodeStep::RunTool { .. } => panic!("native synthesis must not transcode"),
    }
}
