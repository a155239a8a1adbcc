//! The cloud speech backend: voice descriptors, construction of the REST
//! synthesis request (URL and JSON body), and the handling of the service's
//! response down to finished audio bytes.
//!
//! The network call itself is performed by the caller, which feeds the
//! outcome back into `handle_synthesis_response`; every decision around the
//! call is made and proved here.

use vstd::prelude::*;
use vstd::string::StringExecFns;

use base64::Engine;

use crate::numbers::{decimal_rep, push_decimal_u32};
use crate::strutil::push_char;
use crate::tts::{
    conversion_step, native_support_spec, negotiate, AudioFormat, EngineKind, SynthesisPlan,
    TtsError, TtsPlayer, Voice,
};
use crate::audio_conversion::TranscodeStep;

verus! {

/// Speaker presets of the cloud service's neural voices.
#[derive(Clone, Copy, Debug, PartialEq, Eq, Structural)]
pub enum GoogleVoice {
    Default,
    UsFemale,
    UsMale,
    UkFemale,
    UkMale,
}

impl GoogleVoice {
    pub open spec fn google_voice_name_spec(self) -> Seq<char> {
        match self {
            GoogleVoice::Default | GoogleVoice::UsFemale => "en-US-Neural2-F"@,
            GoogleVoice::UsMale => "en-US-Neural2-D"@,
            GoogleVoice::UkFemale => "en-GB-Neural2-A"@,
            GoogleVoice::UkMale => "en-GB-Neural2-B"@,
        }
    }

    /// The service's voice identifier for this preset.
    pub fn google_voice_name(&self) -> (r: &'static str)
        ensures
            r@ == self.google_voice_name_spec(),
    {
        match self {
            GoogleVoice::Default | GoogleVoice::UsFemale => "en-US-Neural2-F",
            GoogleVoice::UsMale => "en-US-Neural2-D",
            GoogleVoice::UkFemale => "en-GB-Neural2-A",
            GoogleVoice::UkMale => "en-GB-Neural2-B",
        }
    }

    pub open spec fn language_code_spec(self) -> Seq<char> {
        match self {
            GoogleVoice::Default | GoogleVoice::UsFemale | GoogleVoice::UsMale => "en-US"@,
            GoogleVoice::UkFemale | GoogleVoice::UkMale => "en-GB"@,
        }
    }

    /// The BCP-47 language tag the preset belongs to.
    pub fn language_code(&self) -> (r: &'static str)
        ensures
            r@ == self.language_code_spec(),
    {
        match self {
            GoogleVoice::Default | GoogleVoice::UsFemale | GoogleVoice::UsMale => "en-US",
            GoogleVoice::UkFemale | GoogleVoice::UkMale => "en-GB",
        }
    }
}

impl From<Voice> for GoogleVoice {
    fn from(voice: Voice) -> (r: GoogleVoice) {
        match voice {
            Voice::Default => GoogleVoice::Default,
            Voice::UsFemale => GoogleVoice::UsFemale,
            Voice::UsMale => GoogleVoice::UsMale,
            Voice::UkFemale => GoogleVoice::UkFemale,
            Voice::UkMale => GoogleVoice::UkMale,
        }
    }
}

impl vstd::std_specs::convert::FromSpecImpl<Voice> for GoogleVoice {
    open spec fn obeys_from_spec() -> bool {
        true
    }

    open spec fn from_spec(voice: Voice) -> GoogleVoice {
        match voice {
            Voice::Default => GoogleVoice::Default,
            Voice::UsFemale => GoogleVoice::UsFemale,
            Voice::UsMale => GoogleVoice::UsMale,
            Voice::UkFemale => GoogleVoice::UkFemale,
            Voice::UkMale => GoogleVoice::UkMale,
        }
    }
}

/// The hexadecimal digit character for a nibble, lower case.
pub open spec fn hex_digit_char(d: nat) -> char {
    if d < 10 {
        crate::numbers::decimal_digit_char(d)
    } else if d == 10 {
        'a'
    } else if d == 11 {
        'b'
    } else if d == 12 {
        'c'
    } else if d == 13 {
        'd'
    } else if d == 14 {
        'e'
    } else {
        'f'
    }
}

/// How one character appears inside a JSON string literal: quote and
/// backslash get a backslash escape, the named control characters get their
/// short escapes, the remaining control characters a \u00XX escape, and
/// everything else stands for itself.
pub open spec fn json_escaped_char(c: char) -> Seq<char> {
    if c == '"' {
        seq!['\\', '"']
    } else if c == '\\' {
        seq!['\\', '\\']
    } else if c == '\u{8}' {
        seq!['\\', 'b']
    } else if c == '\u{c}' {
        seq!['\\', 'f']
    } else if c == '\n' {
        seq!['\\', 'n']
    } else if c == '\r' {
        seq!['\\', 'r']
    } else if c == '\t' {
        seq!['\\', 't']
    } else if (c as u32) < 32 {
        seq!['\\', 'u', '0', '0', hex_digit_char((c as u32 / 16) as nat), hex_digit_char(
            (c as u32 % 16) as nat,
        )]
    } else {
        seq![c]
    }
}

/// A character sequence escaped for inclusion in a JSON string literal.
pub open spec fn json_escaped(s: Seq<char>) -> Seq<char>
    decreases s.len(),
{
    if s.len() == 0 {
        Seq::empty()
    } else {
        json_escaped(s.drop_last()) + json_escaped_char(s.last())
    }
}

fn exec_hex_digit_char(d: u32) -> (c: char)
    requires
        d < 16,
    ensures
        c == hex_digit_char(d as nat),
{
    match d {
        0 => '0',
        1 => '1',
        2 => '2',
        3 => '3',
        4 => '4',
        5 => '5',
        6 => '6',
        7 => '7',
        8 => '8',
        9 => '9',
        10 => 'a',
        11 => 'b',
        12 => 'c',
        13 => 'd',
        14 => 'e',
        _ => 'f',
    }
}

/// Append one character to `out` in its JSON string-literal form.
fn push_json_escaped_char(out: &mut String, c: char)
    ensures
        final(out)@ == old(out)@ + json_escaped_char(c),
{
    if c == '"' {
        push_char(out, '\\');
        push_char(out, '"');
    } else if c == '\\' {
        push_char(out, '\\');
        push_char(out, '\\');
    } else if c == '\u{8}' {
        push_char(out, '\\');
        push_char(out, 'b');
    } else if c == '\u{c}' {
        push_char(out, '\\');
        push_char(out, 'f');
    } else if c == '\n' {
        push_char(out, '\\');
        push_char(out, 'n');
    } else if c == '\r' {
        push_char(out, '\\');
        push_char(out, 'r');
    } else if c == '\t' {
        push_char(out, '\\');
        push_char(out, 't');
    } else if (c as u32) < 32 {
        push_char(out, '\\');
        push_char(out, 'u');
        push_char(out, '0');
        push_char(out, '0');
        push_char(out, exec_hex_digit_char((c as u32) / 16));
        push_char(out, exec_hex_digit_char((c as u32) % 16));
    } else {
        push_char(out, c);
    }
    assert(out@ =~= old(out)@ + json_escaped_char(c));
}

/// Append the JSON string-literal escaping of `s` to `out`.
fn push_json_escaped(out: &mut String, s: &str)
    ensures
        final(out)@ == old(out)@ + json_escaped(s@),
{
    let n = s.unicode_len();
    let mut i: usize = 0;
    while i < n
        invariant
            n == s@.len(),
            0 <= i <= n,
            out@ == old(out)@ + json_escaped(s@.take(i as int)),
        decreases n - i,
    {
        let c = s.get_char(i);
        push_json_escaped_char(out, c);
        proof {
            assert(s@.take(i + 1).drop_last() =~= s@.take(i as int));
            assert(s@.take(i + 1).last() == s@[i as int]);
        }
        i = i + 1;
    }
    proof {
        assert(s@.take(n as int) =~= s@);
    }
}

/// The JSON body of a synthesis request, exactly as the service expects it.
pub open spec fn tts_request_body(
    text: Seq<char>,
    language_code: Seq<char>,
    voice_name: Seq<char>,
    encoding: Seq<char>,
    sample_rate: u32,
) -> Seq<char> {
    "{\"input\":{\"text\":\""@ + json_escaped(text) + "\"},\"voice\":{\"languageCode\":\""@
        + language_code + "\",\"name\":\""@ + voice_name
        + "\"},\"audioConfig\":{\"audioEncoding\":\""@ + encoding + "\",\"sampleRateHertz\":"@
        + decimal_rep(sample_rate as nat) + "}}"@
}

/// Build the JSON body of a synthesis request.
pub fn build_tts_request_body(
    text: &str,
    language_code: &str,
    voice_name: &str,
    encoding: &str,
    sample_rate: u32,
) -> (r: String)
    ensures
        r@ == tts_request_body(text@, language_code@, voice_name@, encoding@, sample_rate),
{
    let mut body = String::new();
    body.append("{\"input\":{\"text\":\"");
    push_json_escaped(&mut body, text);
    body.append("\"},\"voice\":{\"languageCode\":\"");
    body.append(language_code);
    body.append("\",\"name\":\"");
    body.append(voice_name);
    body.append("\"},\"audioConfig\":{\"audioEncoding\":\"");
    body.append(encoding);
    body.append("\",\"sampleRateHertz\":");
    push_decimal_u32(&mut body, sample_rate);
    body.append("}}");
    assert(body@ =~= tts_request_body(text@, language_code@, voice_name@, encoding@, sample_rate));
    body
}

/// The synthesis endpoint with the API key as a query parameter.
pub open spec fn synthesis_url(api_key: Seq<char>) -> Seq<char> {
    "https://texttospeech.googleapis.com/v1/text:synthesize?key="@ + api_key
}

/// The cloud speech backend: an API credential and a voice preset.
pub struct GoogleTts {
    pub api_key: String,
    pub voice: GoogleVoice,
}

/// The encoding names of the service's request protocol.
pub open spec fn google_encoding_spec(format: AudioFormat) -> Seq<char> {
    match format {
        AudioFormat::Mp3 => "MP3"@,
        AudioFormat::Wav => "LINEAR16"@,
        AudioFormat::Ogg => "OGG_OPUS"@,
        AudioFormat::Ulaw => "MULAW"@,
        AudioFormat::Alaw => "ALAW"@,
        AudioFormat::Gsm => Seq::empty(),
    }
}

/// Everything the caller needs to perform one synthesis call: where to
/// send it, what to send, and how the response will be brought to the
/// target format.
pub struct CloudRequest {
    pub url: String,
    pub body: String,
    pub plan: SynthesisPlan,
}

/// What came back from performing the HTTP call.
#[derive(Debug, PartialEq, Eq)]
pub enum HttpOutcome {
    /// The request could not be performed at all.
    RequestFailed { error: String },
    /// The service answered; `success` is whether the status was 2xx and
    /// `body` is the response text.
    Response { success: bool, body: String },
}

/// The "audioContent" string field of a JSON document, when the document
/// parses and carries one; a function of the text alone.
pub uninterp spec fn audio_content_field(body: Seq<char>) -> Option<Seq<char>>;

/// Relies on serde_json's `from_str` together with `Value::get` and
/// `Value::as_str`: parsing a JSON document and reading its "audioContent"
/// string field depend on the document text alone.
#[verifier::external_body]
fn extract_audio_content(body: &str) -> (r: Result<String, String>)
    ensures
        r is Ok <==> audio_content_field(body@) is Some,
        r matches Ok(s) ==> audio_content_field(body@) matches Some(v) && s@ == v,
{
    let value: serde_json::Value = match serde_json::from_str(body) {
        Ok(v) => v,
        Err(e) => return Err(format!("{}", e)),
    };
    match value.get("audioContent").and_then(|v| v.as_str()) {
        Some(s) => Ok(s.to_string()),
        None => Err("response carries no audioContent string".to_string()),
    }
}

/// What base64's standard-alphabet decoding yields for a character
/// sequence; a function of the input alone.
pub uninterp spec fn base64_decoded(s: Seq<char>) -> Option<Seq<u8>>;

/// Relies on base64's `Engine::decode` with the STANDARD engine: decoding
/// depends on the input characters alone.
#[verifier::external_body]
fn base64_decode(s: &str) -> (r: Result<Vec<u8>, String>)
    ensures
        r is Ok <==> base64_decoded(s@) is Some,
        r matches Ok(v) ==> base64_decoded(s@) matches Some(b) && v@ == b,
{
    match base64::engine::general_purpose::STANDARD.decode(s) {
        Ok(v) => Ok(v),
        Err(e) => Err(format!("{}", e)),
    }
}

/// The full relation between an HTTP outcome, the synthesis plan it was
/// performed for, and the step `handle_synthesis_response` decides on.
pub open spec fn response_step(outcome: HttpOutcome, plan: SynthesisPlan, r: TranscodeStep) -> bool {
    match outcome {
        HttpOutcome::RequestFailed { error } => r matches TranscodeStep::Done { result: Err(e) }
            && (e matches TtsError::SynthesisError(m) && m@ == "HTTP request failed: "@ + error@),
        HttpOutcome::Response { success, body } => if !success {
            r matches TranscodeStep::Done { result: Err(e) } && (
            e matches TtsError::SynthesisError(m) && m@ == "Google TTS API error: "@ + body@)
        } else {
            match audio_content_field(body@) {
                Option::None => r matches TranscodeStep::Done { result: Err(e) } && e is SynthesisError,
                Option::Some(content) => match base64_decoded(content) {
                    Option::None => r matches TranscodeStep::Done { result: Err(e) }
                        && e is SynthesisError,
                    Option::Some(audio) => match plan {
                        SynthesisPlan::Native { .. } => r matches TranscodeStep::Done {
                            result: Ok(v),
                        } && v@ == audio,
                        SynthesisPlan::Transcode { intermediate, target, .. } => conversion_step(
                            audio,
                            intermediate,
                            target,
                            r,
                        ),
                    },
                },
            }
        },
    }
}

/// A natively supported target format never reaches the transcoder:
/// whatever the outcome of the HTTP call, the step decided for a native
/// plan is final and invokes no external conversion tool.
pub proof fn lemma_native_plan_runs_no_tool(
    outcome: HttpOutcome,
    format: AudioFormat,
    r: TranscodeStep,
)
    requires
        native_support_spec(EngineKind::CloudEngine, format),
        response_step(outcome, SynthesisPlan::Native { format }, r),
    ensures
        r is Done,
{
}

/// A telephony target outside the native set goes through exactly one
/// transcoding path: whatever the outcome of the HTTP call, the only tool
/// run the pipeline can plan for it is the single preferred-tool
/// conversion of the WAV intermediate into that target.
pub proof fn lemma_telephony_single_transcode(
    outcome: HttpOutcome,
    target: AudioFormat,
    r: TranscodeStep,
)
    requires
        target.is_telephony_format_spec(),
        !native_support_spec(EngineKind::CloudEngine, target),
        response_step(
            outcome,
            SynthesisPlan::Transcode {
                intermediate: AudioFormat::Wav,
                sample_rate: target.telephony_sample_rate_spec(),
                target,
            },
            r,
        ),
    ensures
        r matches TranscodeStep::RunTool { invocation, .. } ==> invocation == (
        crate::audio_conversion::ToolInvocation {
            tool: crate::audio_conversion::TranscodeTool::Sox,
            target,
        }),
{
}

impl GoogleTts {
    /// A backend holding the given credential and voice preset.
    pub fn new(api_key: String, voice: GoogleVoice) -> (r: GoogleTts)
        ensures
            r.api_key@ == api_key@,
            r.voice == voice,
    {
        GoogleTts { api_key, voice }
    }

    /// The service's name for an encoding; GSM has none and is rejected,
    /// as it can only be reached through WAV and a transcoding step.
    pub fn audio_format_to_google_encoding(&self, format: &AudioFormat) -> (r: Result<
        &'static str,
        TtsError,
    >)
        ensures
            *format != AudioFormat::Gsm ==> (r matches Ok(s) && s@ == google_encoding_spec(
                *format,
            )),
            *format == AudioFormat::Gsm ==> (r matches Err(e) && (
            e matches TtsError::AudioConversionError(m) && m@
                == "GSM format not directly supported by Google TTS. Use WAV and convert to GSM."@)),
    {
        match format {
            AudioFormat::Mp3 => Ok("MP3"),
            AudioFormat::Wav => Ok("LINEAR16"),
            AudioFormat::Ogg => Ok("OGG_OPUS"),
            AudioFormat::Ulaw => Ok("MULAW"),
            AudioFormat::Alaw => Ok("ALAW"),
            AudioFormat::Gsm => Err(
                TtsError::AudioConversionError(
                    String::from_str(
                        "GSM format not directly supported by Google TTS. Use WAV and convert to GSM.",
                    ),
                ),
            ),
        }
    }

    /// Prepare one synthesis call: negotiate the plan for the target
    /// format, and build the endpoint URL and the JSON request body asking
    /// for the format the plan synthesizes, at the sample rate the
    /// target's class demands.
    pub fn prepare_synthesis(&self, text: &str, format: &AudioFormat) -> (r: CloudRequest)
        ensures
            native_support_spec(EngineKind::CloudEngine, *format) ==> r.plan == (
            SynthesisPlan::Native { format: *format }),
            !native_support_spec(EngineKind::CloudEngine, *format) ==> r.plan == (
            SynthesisPlan::Transcode {
                intermediate: AudioFormat::Wav,
                sample_rate: format.telephony_sample_rate_spec(),
                target: *format,
            }),
            r.url@ == synthesis_url(self.api_key@),
            r.body@ == tts_request_body(
                text@,
                self.voice.language_code_spec(),
                self.voice.google_voice_name_spec(),
                google_encoding_spec(
                    if native_support_spec(EngineKind::CloudEngine, *format) {
                        *format
                    } else {
                        AudioFormat::Wav
                    },
                ),
                format.telephony_sample_rate_spec(),
            ),
    {
        let plan = negotiate(&EngineKind::CloudEngine, format);
        let request_format: AudioFormat = match &plan {
            SynthesisPlan::Native { format: f } => *f,
            SynthesisPlan::Transcode { intermediate, .. } => *intermediate,
        };
        let encoding: &'static str = match self.audio_format_to_google_encoding(&request_format) {
            Ok(e) => e,
            Err(_) => {
                // Negotiation never asks the service for GSM, the one
                // encoding it lacks, so this arm is unreachable.
                assert(false);
                ""
            },
        };
        let sample_rate = format.telephony_sample_rate();
        let body = build_tts_request_body(
            text,
            self.voice.language_code(),
            self.voice.google_voice_name(),
            encoding,
            sample_rate,
        );
        let mut url = String::from_str("https://texttospeech.googleapis.com/v1/text:synthesize?key=");
        url.append(self.api_key.as_str());
        CloudRequest { url, body, plan }
    }

    /// Bring the outcome of the HTTP call to finished audio: report
    /// request and service failures as synthesis errors, otherwise read
    /// and decode the audio payload and, when the plan demands it, hand
    /// the intermediate buffer on to format conversion.
    pub fn handle_synthesis_response(&self, outcome: HttpOutcome, plan: &SynthesisPlan) -> (r:
        TranscodeStep)
        ensures
            response_step(outcome, *plan, r),
    {
        match outcome {
            HttpOutcome::RequestFailed { error } => {
                let mut m = String::from_str("HTTP request failed: ");
                m.append(error.as_str());
                TranscodeStep::Done { result: Err(TtsError::SynthesisError(m)) }
            },
            HttpOutcome::Response { success, body } => {
                if !success {
                    let mut m = String::from_str("Google TTS API error: ");
                    m.append(body.as_str());
                    return TranscodeStep::Done { result: Err(TtsError::SynthesisError(m)) };
                }
                let content = match extract_audio_content(body.as_str()) {
                    Ok(c) => c,
                    Err(e) => {
                        let mut m = String::from_str("Failed to parse response: ");
                        m.append(e.as_str());
                        return TranscodeStep::Done { result: Err(TtsError::SynthesisError(m)) };
                    },
                };
                let audio = match base64_decode(content.as_str()) {
                    Ok(a) => a,
                    Err(e) => {
                        let mut m = String::from_str("Failed to decode audio: ");
                        m.append(e.as_str());
                        return TranscodeStep::Done { result: Err(TtsError::SynthesisError(m)) };
                    },
                };
                match plan {
                    SynthesisPlan::Native { .. } => TranscodeStep::Done { result: Ok(audio) },
                    SynthesisPlan::Transcode { intermediate, target, .. } => {
                        TtsPlayer::convert_audio_format(audio.as_slice(), intermediate, target)
                    },
                }
            },
        }
    }
}

} // verus!
