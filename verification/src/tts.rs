//! Audio format model and speech backend surface.
//!
//! `AudioFormat` is a closed enumeration of output encodings; every property
//! (file extension, telephony flag, sample rate, playback support) is a pure
//! lookup proved against a spec-level table.

use vstd::prelude::*;

verus! {

/// Speaker presets offered to callers; each backend maps them to its own
/// voice descriptor.
#[derive(Clone, Copy, Debug, PartialEq, Eq, Structural)]
pub enum Voice {
    Default,
    UsFemale,
    UsMale,
    UkFemale,
    UkMale,
}

/// The output encodings the pipeline can produce.
#[derive(Clone, Copy, Debug, PartialEq, Eq, Structural)]
pub enum AudioFormat {
    Mp3,
    Wav,
    Ogg,
    Ulaw,
    Alaw,
    Gsm,
}

impl AudioFormat {
    /// Sample rate demanded by the format's class: 8 kHz for the telephony
    /// encodings, the synthesis-quality default otherwise.
    pub open spec fn telephony_sample_rate_spec(self) -> u32 {
        match self {
            AudioFormat::Ulaw | AudioFormat::Alaw | AudioFormat::Gsm => 8000,
            _ => 22050,
        }
    }

    /// Get the appropriate sample rate for telephony compatibility.
    pub fn telephony_sample_rate(&self) -> (r: u32)
        ensures
            r == self.telephony_sample_rate_spec(),
    {
        match self {
            AudioFormat::Ulaw | AudioFormat::Alaw | AudioFormat::Gsm => 8000,
            _ => 22050,
        }
    }

    /// The telephony formats are the 8 kHz mono encodings.
    pub open spec fn is_telephony_format_spec(self) -> bool {
        match self {
            AudioFormat::Ulaw | AudioFormat::Alaw | AudioFormat::Gsm => true,
            _ => false,
        }
    }

    /// Check if this format requires a telephony-compatible sample rate.
    pub fn is_telephony_format(&self) -> (r: bool)
        ensures
            r == self.is_telephony_format_spec(),
    {
        match self {
            AudioFormat::Ulaw | AudioFormat::Alaw | AudioFormat::Gsm => true,
            _ => false,
        }
    }

    /// Canonical file extension; the two G.711 encodings share the "wav"
    /// container extension while staying distinct format tags.
    pub open spec fn file_extension_spec(self) -> Seq<char> {
        match self {
            AudioFormat::Mp3 => "mp3"@,
            AudioFormat::Wav => "wav"@,
            AudioFormat::Ogg => "ogg"@,
            AudioFormat::Ulaw => "wav"@,
            AudioFormat::Alaw => "wav"@,
            AudioFormat::Gsm => "gsm"@,
        }
    }

    pub fn file_extension(&self) -> (r: &'static str)
        ensures
            r@ == self.file_extension_spec(),
    {
        match self {
            AudioFormat::Mp3 => "mp3",
            AudioFormat::Wav => "wav",
            AudioFormat::Ogg => "ogg",
            AudioFormat::Ulaw => "wav",
            AudioFormat::Alaw => "wav",
            AudioFormat::Gsm => "gsm",
        }
    }

    /// Only the non-telephony formats can be decoded and played directly.
    pub open spec fn supports_direct_playback_spec(self) -> bool {
        match self {
            AudioFormat::Mp3 | AudioFormat::Wav | AudioFormat::Ogg => true,
            _ => false,
        }
    }

    pub fn supports_direct_playback(&self) -> (r: bool)
        ensures
            r == self.supports_direct_playback_spec(),
    {
        match self {
            AudioFormat::Mp3 | AudioFormat::Wav | AudioFormat::Ogg => true,
            _ => false,
        }
    }

    /// Upper-case display name used in diagnostics.
    pub open spec fn display_name_spec(self) -> Seq<char> {
        match self {
            AudioFormat::Mp3 => "MP3"@,
            AudioFormat::Wav => "WAV"@,
            AudioFormat::Ogg => "OGG"@,
            AudioFormat::Ulaw => "ULAW"@,
            AudioFormat::Alaw => "ALAW"@,
            AudioFormat::Gsm => "GSM"@,
        }
    }

    pub fn display_name(&self) -> (r: &'static str)
        ensures
            r@ == self.display_name_spec(),
    {
        match self {
            AudioFormat::Mp3 => "MP3",
            AudioFormat::Wav => "WAV",
            AudioFormat::Ogg => "OGG",
            AudioFormat::Ulaw => "ULAW",
            AudioFormat::Alaw => "ALAW",
            AudioFormat::Gsm => "GSM",
        }
    }
}

/// The file extension class re-derived from an extension is consistent with
/// the format it came from: "gsm" identifies exactly Gsm, "mp3" exactly Mp3,
/// "ogg" exactly Ogg, and "wav" identifies the WAV container shared by Wav
/// and the two G.711 telephony encodings, which remain distinct tags.
pub proof fn lemma_extension_round_trip(f: AudioFormat)
    ensures
        f.file_extension_spec() == "gsm"@ <==> f == AudioFormat::Gsm,
        f.file_extension_spec() == "mp3"@ <==> f == AudioFormat::Mp3,
        f.file_extension_spec() == "ogg"@ <==> f == AudioFormat::Ogg,
        f.file_extension_spec() == "wav"@ <==> (f == AudioFormat::Wav || f == AudioFormat::Ulaw
            || f == AudioFormat::Alaw),
        AudioFormat::Ulaw != AudioFormat::Alaw,
{
    reveal_strlit("gsm");
    reveal_strlit("mp3");
    reveal_strlit("ogg");
    reveal_strlit("wav");
    // The four extensions differ pairwise already in their first character.
    assert("gsm"@[0] == 'g');
    assert("mp3"@[0] == 'm');
    assert("ogg"@[0] == 'o');
    assert("wav"@[0] == 'w');
}

/// The speech engine families the pipeline can drive.
#[derive(Clone, Copy, Debug, PartialEq, Eq, Structural)]
pub enum EngineKind {
    /// An embedded or subprocess speech engine (eSpeak-style); emits only
    /// uncompressed WAV.
    LocalEngine,
    /// A REST speech service (Google-style); emits every format except GSM.
    CloudEngine,
}

/// The per-engine allow-list of natively producible formats.
pub open spec fn native_support_spec(kind: EngineKind, format: AudioFormat) -> bool {
    match kind {
        EngineKind::LocalEngine => format == AudioFormat::Wav,
        EngineKind::CloudEngine => format != AudioFormat::Gsm,
    }
}

/// Whether the engine family can produce the format directly from text,
/// without any transcoding step.
pub fn native_support(kind: &EngineKind, format: &AudioFormat) -> (r: bool)
    ensures
        r == native_support_spec(*kind, *format),
{
    match kind {
        EngineKind::LocalEngine => *format == AudioFormat::Wav,
        EngineKind::CloudEngine => *format != AudioFormat::Gsm,
    }
}

/// How a synthesis request will be satisfied.
#[derive(Clone, Copy, Debug, PartialEq, Eq, Structural)]
pub enum SynthesisPlan {
    /// The backend emits the target format itself; nothing else runs.
    Native { format: AudioFormat },
    /// The backend synthesizes an uncompressed intermediate at the given
    /// sample rate and exactly one transcoding step produces the target.
    Transcode { intermediate: AudioFormat, sample_rate: u32, target: AudioFormat },
}

/// Decide how a backend of the given family reaches the target format.
///
/// Native support always wins over transcoding. A format outside the
/// backend's native set is synthesized as an uncompressed WAV intermediate
/// at the rate the target's class demands and handed to the transcoder.
pub fn negotiate(kind: &EngineKind, target: &AudioFormat) -> (r: SynthesisPlan)
    ensures
        native_support_spec(*kind, *target) ==> r == (SynthesisPlan::Native { format: *target }),
        !native_support_spec(*kind, *target) ==> r == (SynthesisPlan::Transcode {
            intermediate: AudioFormat::Wav,
            sample_rate: target.telephony_sample_rate_spec(),
            target: *target,
        }),
{
    if native_support(kind, target) {
        SynthesisPlan::Native { format: *target }
    } else {
        SynthesisPlan::Transcode {
            intermediate: AudioFormat::Wav,
            sample_rate: target.telephony_sample_rate(),
            target: *target,
        }
    }
}

/// Errors reported by the pipeline; each carries a human-readable cause.
#[derive(Debug, Clone, PartialEq, Eq)]
pub enum TtsError {
    SynthesisError(String),
    AudioConversionError(String),
    PlaybackError(String),
    FileError(String),
}

/// Capability surface implemented once per speech engine family. The engines
/// themselves perform network or process I/O, so implementations live with
/// the callers that own those resources.
pub trait TtsBackend {
    /// Synthesize speech to audio data in the requested format.
    fn synthesize(&self, text: &str, format: &AudioFormat) -> Result<Vec<u8>, TtsError>;

    /// Synthesize speech for direct playback (no audio data returned).
    fn speak(&self, text: &str) -> Result<(), TtsError>;

    /// Get the name of this TTS backend.
    fn backend_name(&self) -> &'static str;
}

/// Common TTS operations shared by all backends.
pub struct TtsPlayer;

/// The destination path an output file is written to: the given path when
/// it already carries an extension (any "."), otherwise the path with the
/// format's canonical extension appended.
pub open spec fn resolved_output_path(path: Seq<char>, format: AudioFormat) -> Seq<char> {
    if path.contains('.') {
        path
    } else {
        path + "."@ + format.file_extension_spec()
    }
}

/// The full relation between a buffer, a format pair and the step
/// `TtsPlayer::convert_audio_format` decides on: equal formats hand the
/// identical bytes back with no tool invoked, WAV-to-telephony follows the
/// transcoder's relation, and every other pair is an error naming both
/// formats.
pub open spec fn conversion_step(
    b: Seq<u8>,
    from: AudioFormat,
    to: AudioFormat,
    r: crate::audio_conversion::TranscodeStep,
) -> bool {
    if from == to {
        r matches crate::audio_conversion::TranscodeStep::Done { result: Ok(v) } && v@ == b
    } else if from == AudioFormat::Wav && to.is_telephony_format_spec() {
        crate::audio_conversion::raw_telephony_step(b, to, r)
    } else {
        r matches crate::audio_conversion::TranscodeStep::Done { result: Err(e) } && (
        e matches TtsError::AudioConversionError(m) && m@ == "Conversion from "@
            + from.display_name_spec() + " to "@ + to.display_name_spec()
            + " is not yet supported"@)
    }
}

/// One terminal action of the output dispatcher.
#[derive(Debug, PartialEq, Eq)]
pub enum OutputAction {
    /// Write the finished buffer verbatim to this resolved path.
    SaveFile { path: String },
    /// Decode the buffer and play it to completion on the default output.
    PlayAudio,
}

impl TtsPlayer {
    /// Resolve the file destination for a buffer of the given format,
    /// appending the canonical extension when the path has none.
    pub fn resolve_output_path(output_path: &str, format: &AudioFormat) -> (r: String)
        ensures
            r@ == resolved_output_path(output_path@, *format),
    {
        if crate::strutil::str_contains_char(output_path, '.') {
            String::from_str(output_path)
        } else {
            let mut p = String::from_str(output_path);
            p.append(".");
            p.append(format.file_extension());
            assert(p@ =~= resolved_output_path(output_path@, *format));
            p
        }
    }

    /// Convert audio data from one format to another; this is the single
    /// decision point for all conversions.
    ///
    /// A buffer already in the target format is returned unchanged, with
    /// no tool invoked; WAV buffers can be converted to the telephony
    /// formats; every other pair is rejected.
    pub fn convert_audio_format(
        audio_data: &[u8],
        from_format: &AudioFormat,
        to_format: &AudioFormat,
    ) -> (r: crate::audio_conversion::TranscodeStep)
        ensures
            conversion_step(audio_data@, *from_format, *to_format, r),
    {
        if *from_format == *to_format {
            crate::audio_conversion::TranscodeStep::Done {
                result: Ok(vstd::slice::slice_to_vec(audio_data)),
            }
        } else if *from_format == AudioFormat::Wav && to_format.is_telephony_format() {
            crate::audio_conversion::convert_to_raw_telephony(audio_data, to_format)
        } else {
            let mut m = String::new();
            m.append("Conversion from ");
            m.append(from_format.display_name());
            m.append(" to ");
            m.append(to_format.display_name());
            m.append(" is not yet supported");
            crate::audio_conversion::TranscodeStep::Done {
                result: Err(TtsError::AudioConversionError(m)),
            }
        }
    }
}

/// Decide the single terminal action for a finished buffer: save it when a
/// destination is given (never playing), play it when none is given and
/// the format supports direct playback, and reject playback otherwise.
pub fn plan_output(output_path: &Option<String>, format: &AudioFormat) -> (r: Result<
    OutputAction,
    TtsError,
>)
    ensures
        output_path matches Some(p) ==> (r matches Ok(OutputAction::SaveFile { path }) && path@
            == resolved_output_path(p@, *format)),
        output_path is None && format.supports_direct_playback_spec() ==> r == Ok::<
            OutputAction,
            TtsError,
        >(OutputAction::PlayAudio),
        output_path is None && !format.supports_direct_playback_spec() ==> (
        r matches Err(TtsError::PlaybackError(m)) && m@ == format.display_name_spec()
            + " format does not support direct playback. Use --output to save to file."@),
{
    match output_path {
        Some(p) => Ok(
            OutputAction::SaveFile { path: TtsPlayer::resolve_output_path(p.as_str(), format) },
        ),
        None => {
            if format.supports_direct_playback() {
                Ok(OutputAction::PlayAudio)
            } else {
                let mut m = String::new();
                m.append(format.display_name());
                m.append(" format does not support direct playback. Use --output to save to file.");
                Err(TtsError::PlaybackError(m))
            }
        },
    }
}

} // verus!
