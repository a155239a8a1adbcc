use weather::tts::{
    native_support, negotiate, AudioFormat, EngineKind, SynthesisPlan,
};

#[test]
fn telephony_sample_rates() {
    assert_eq!(AudioFormat::Ulaw.telephony_sample_rate(), 8000);
    assert_eq!(AudioFormat::Alaw.telephony_sample_rate(), 8000);
    assert_eq!(AudioFormat::Gsm.telephony_sample_rate(), 8000);
    assert_eq!(AudioFormat::Mp3.telephony_sample_rate(), 22050);
    assert_eq!(AudioFormat::Wav.telephony_sample_rate(), 22050);
    assert_eq!(AudioFormat::Ogg.telephony_sample_rate(), 22050);
}

#[test]
fn telephony_flags() {
    assert!(AudioFormat::Ulaw.is_telephony_format());
    assert!(AudioFormat::Alaw.is_telephony_format());
    assert!(AudioFormat::Gsm.is_telephony_format());
    assert!(!AudioFormat::Mp3.is_telephony_format());
    assert!(!AudioFormat::Wav.is_telephony_format());
    assert!(!AudioFormat::Ogg.is_telephony_format());
}

#[test]
fn file_extensions_round_trip() {
    // Gsm maps to its own extension; the two G.711 encodings share the
    // "wav" container extension but stay distinct format tags.
    assert_eq!(AudioFormat::Gsm.file_extension(), "gsm");
    assert_eq!(AudioFormat::Mp3.file_extension(), "mp3");
    assert_eq!(AudioFormat::Ogg.file_extension(), "ogg");
    assert_eq!(AudioFormat::Wav.file_extension(), "wav");
    assert_eq!(AudioFormat::Ulaw.file_extension(), "wav");
    assert_eq!(AudioFormat::Alaw.file_extension(), "wav");
    assert_ne!(AudioFormat::Ulaw, AudioFormat::Alaw);
    assert_ne!(AudioFormat::Ulaw, AudioFormat::Wav);
    assert_ne!(AudioFormat::Alaw, AudioFormat::Wav);
}

#[test]
fn direct_playback_support() {
    assert!(AudioFormat::Mp3.supports_direct_playback());
    assert!(AudioFormat::Wav.supports_direct_playback());
    assert!(AudioFormat::Ogg.supports_direct_playback());
    assert!(!AudioFormat::Ulaw.supports_direct_playback());
    assert!(!AudioFormat::Alaw.supports_direct_playback());
    assert!(!AudioFormat::Gsm.supports_direct_playback());
}

#[test]
fn display_names() {
    assert_eq!(AudioFormat::Mp3.display_name(), "MP3");
    assert_eq!(AudioFormat::Ulaw.display_name(), "ULAW");
    assert_eq!(AudioFormat::Gsm.display_name(), "GSM");
}

#[test]
fn native_allow_lists() {
    assert!(native_support(&EngineKind::LocalEngine, &AudioFormat::Wav));
    assert!(!native_support(&EngineKind::LocalEngine, &AudioFormat::Mp3));
    assert!(!native_support(&EngineKind::LocalEngine, &AudioFormat::Gsm));
    assert!(native_support(&EngineKind::CloudEngine, &AudioFormat::Mp3));
    assert!(native_support(&EngineKind::CloudEngine, &AudioFormat::Wav));
    assert!(native_support(&EngineKind::CloudEngine, &AudioFormat::Ogg));
    assert!(native_support(&EngineKind::CloudEngine, &AudioFormat::Ulaw));
    assert!(native_support(&EngineKind::CloudEngine, &AudioFormat::Alaw));
    assert!(!native_support(&EngineKind::CloudEngine, &AudioFormat::Gsm));
}

#[test]
fn negotiation_prefers_native() {
    // A natively supported format is synthesized directly: no transcoding.
    assert_eq!(
        negotiate(&EngineKind::CloudEngine, &AudioFormat::Mp3),
        SynthesisPlan::Native { format: AudioFormat::Mp3 }
    );
    assert_eq!(
        negotiate(&EngineKind::CloudEngine, &AudioFormat::Ulaw),
        SynthesisPlan::Native { format: AudioFormat::Ulaw }
    );
    assert_eq!(
        negotiate(&EngineKind::LocalEngine, &AudioFormat::Wav),
        SynthesisPlan::Native { format: AudioFormat::Wav }
    );
}

#[test]
fn negotiation_routes_telephony_through_wav() {
    // A telephony format outside the native set becomes an 8 kHz WAV
    // intermediate plus exactly one transcoding step.
    assert_eq!(
        negotiate(&EngineKind::CloudEngine, &AudioFormat::Gsm),
        SynthesisPlan::Transcode {
            intermediate: AudioFormat::Wav,
            sample_rate: 8000,
            target: AudioFormat::Gsm,
        }
    );
    assert_eq!(
        negotiate(&EngineKind::LocalEngine, &AudioFormat::Ulaw),
        SynthesisPlan::Transcode {
            intermediate: AudioFormat::Wav,
            sample_rate: 8000,
            target: AudioFormat::Ulaw,
        }
    );
    assert_eq!(
        negotiate(&EngineKind::LocalEngine, &AudioFormat::Mp3),
        SynthesisPlan::Transcode {
            intermediate: AudioFormat::Wav,
            sample_rate: 22050,
            target: AudioFormat::Mp3,
        }
    );
}
