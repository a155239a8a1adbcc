//! Conversion of intermediate WAV audio into the telephony formats.
//!
//! Two paths exist. When the buffer is a RIFF container already carrying the
//! target encoding's samples, the raw payload is extracted directly. When it
//! is not, an external conversion tool must be run; the decisions — which
//! tool, which arguments, what to do with the tool's outcome, including the
//! fallback from the preferred tool to a secondary one on spawn failure —
//! are made here, while the caller performs the actual process work and
//! feeds the outcome back in.

use vstd::prelude::*;
use vstd::slice::slice_to_vec;
use vstd::string::StringExecFns;

use crate::tts::{AudioFormat, TtsError};

verus! {

/// What hound's WAV reader yields for a byte buffer when its sample stream
/// is decoded as 8-bit signed samples; a pure function of the bytes.
pub uninterp spec fn wav_i8_samples(b: Seq<u8>) -> Option<Seq<i8>>;

/// Relies on hound's `WavReader::new` and `samples::<i8>`: parsing the WAV
/// container and decoding its samples depend on the input bytes alone.
#[verifier::external_body]
fn read_wav_samples_i8(wav_data: &[u8]) -> (r: Result<Vec<i8>, String>)
    ensures
        r is Ok <==> wav_i8_samples(wav_data@) is Some,
        r matches Ok(v) ==> wav_i8_samples(wav_data@) matches Some(s) && v@ == s,
{
    let cursor = std::io::Cursor::new(wav_data);
    match hound::WavReader::new(cursor) {
        Err(e) => Err(format!("{}", e)),
        Ok(mut reader) => {
            let samples: Result<Vec<i8>, hound::Error> = reader.samples::<i8>().collect();
            match samples {
                Ok(v) => Ok(v),
                Err(e) => Err(format!("{}", e)),
            }
        },
    }
}

/// The raw telephony payload of a parsed WAV buffer: each signed 8-bit
/// sample reinterpreted as an unsigned byte.
pub open spec fn reinterpreted_samples(s: Seq<i8>) -> Seq<u8> {
    s.map_values(|x: i8| x as u8)
}

/// How the direct-extraction path relates input bytes to its result:
/// the reinterpreted sample payload when the container parses, an audio
/// conversion error when it does not.
pub open spec fn extraction_result(b: Seq<u8>, result: Result<Vec<u8>, TtsError>) -> bool {
    match wav_i8_samples(b) {
        Some(s) => result matches Ok(v) && v@ == reinterpreted_samples(s),
        None => result matches Err(e) && e is AudioConversionError,
    }
}

/// Extract raw audio data from a WAV container, reinterpreting its 8-bit
/// signed samples as unsigned telephony samples.
pub fn extract_raw_audio_from_wav(wav_data: &[u8], format_name: &str) -> (r: Result<
    Vec<u8>,
    TtsError,
>)
    ensures
        extraction_result(wav_data@, r),
{
    match read_wav_samples_i8(wav_data) {
        Ok(samples) => {
            let mut out: Vec<u8> = Vec::new();
            let n = samples.len();
            let mut i: usize = 0;
            while i < n
                invariant
                    n == samples@.len(),
                    0 <= i <= n,
                    out@ == reinterpreted_samples(samples@.take(i as int)),
                decreases n - i,
            {
                let s = samples[i];
                out.push(s as u8);
                assert(out@ =~= reinterpreted_samples(samples@.take(i + 1)));
                i = i + 1;
            }
            assert(samples@.take(n as int) =~= samples@);
            Ok(out)
        },
        Err(cause) => {
            let mut m = String::new();
            m.append("Failed to extract ");
            m.append(format_name);
            m.append(" samples: ");
            m.append(cause.as_str());
            Err(TtsError::AudioConversionError(m))
        },
    }
}

/// A RIFF header marks a complete WAV container (as opposed to a raw or
/// headerless stream).
pub open spec fn is_riff(b: Seq<u8>) -> bool {
    b.len() >= 4 && b[0] == 0x52u8 && b[1] == 0x49u8 && b[2] == 0x46u8 && b[3] == 0x46u8
}

/// Whether the buffer starts with the ASCII bytes "RIFF".
pub fn has_riff_header(data: &[u8]) -> (r: bool)
    ensures
        r == is_riff(data@),
{
    if data.len() < 4 {
        return false;
    }
    let b0 = *vstd::slice::slice_index_get(data, 0);
    let b1 = *vstd::slice::slice_index_get(data, 1);
    let b2 = *vstd::slice::slice_index_get(data, 2);
    let b3 = *vstd::slice::slice_index_get(data, 3);
    b0 == 0x52 && b1 == 0x49 && b2 == 0x46 && b3 == 0x46
}

/// The external conversion tools, tried in order: sox first, ffmpeg as the
/// fallback when sox cannot even be spawned.
#[derive(Clone, Copy, Debug, PartialEq, Eq, Structural)]
pub enum TranscodeTool {
    Sox,
    Ffmpeg,
}

impl TranscodeTool {
    pub open spec fn command_name_spec(self) -> Seq<char> {
        match self {
            TranscodeTool::Sox => "sox"@,
            TranscodeTool::Ffmpeg => "ffmpeg"@,
        }
    }

    /// The executable name the tool is spawned under.
    pub fn command_name(&self) -> (r: &'static str)
        ensures
            r@ == self.command_name_spec(),
    {
        match self {
            TranscodeTool::Sox => "sox",
            TranscodeTool::Ffmpeg => "ffmpeg",
        }
    }
}

/// One request to run an external conversion tool: the complete WAV input
/// is written to the tool's input stream and its output stream is the
/// converted buffer.
#[derive(Clone, Copy, Debug, PartialEq, Eq, Structural)]
pub struct ToolInvocation {
    pub tool: TranscodeTool,
    pub target: AudioFormat,
}

/// The sox name of a telephony output encoding.
pub open spec fn sox_format_selector(target: AudioFormat) -> Seq<char> {
    match target {
        AudioFormat::Ulaw => "ul"@,
        AudioFormat::Alaw => "al"@,
        _ => "gsm"@,
    }
}

/// The ffmpeg name of a telephony output encoding.
pub open spec fn ffmpeg_format_selector(target: AudioFormat) -> Seq<char> {
    match target {
        AudioFormat::Ulaw => "mulaw"@,
        AudioFormat::Alaw => "alaw"@,
        _ => "gsm"@,
    }
}

/// The fixed argument list for an invocation: read WAV from the input
/// stream, emit the target encoding at 8000 Hz mono on the output stream.
pub open spec fn invocation_args(inv: ToolInvocation) -> Seq<Seq<char>> {
    match inv.tool {
        TranscodeTool::Sox => seq![
            "-t"@,
            "wav"@,
            "-"@,
            "-t"@,
            sox_format_selector(inv.target),
            "-r"@,
            "8000"@,
            "-c"@,
            "1"@,
            "-"@,
        ],
        TranscodeTool::Ffmpeg => seq![
            "-i"@,
            "pipe:0"@,
            "-f"@,
            ffmpeg_format_selector(inv.target),
            "-ar"@,
            "8000"@,
            "-ac"@,
            "1"@,
            "pipe:1"@,
        ],
    }
}

fn sox_selector_str(target: &AudioFormat) -> (r: &'static str)
    ensures
        r@ == sox_format_selector(*target),
{
    match target {
        AudioFormat::Ulaw => "ul",
        AudioFormat::Alaw => "al",
        _ => "gsm",
    }
}

fn ffmpeg_selector_str(target: &AudioFormat) -> (r: &'static str)
    ensures
        r@ == ffmpeg_format_selector(*target),
{
    match target {
        AudioFormat::Ulaw => "mulaw",
        AudioFormat::Alaw => "alaw",
        _ => "gsm",
    }
}

/// The command-line arguments for the invocation, ready to hand to a
/// process spawner.
pub fn tool_args(inv: &ToolInvocation) -> (r: Vec<String>)
    ensures
        r.deep_view() == invocation_args(*inv),
{
    let mut args: Vec<String> = Vec::new();
    match inv.tool {
        TranscodeTool::Sox => {
            args.push(String::from_str("-t"));
            args.push(String::from_str("wav"));
            args.push(String::from_str("-"));
            args.push(String::from_str("-t"));
            args.push(String::from_str(sox_selector_str(&inv.target)));
            args.push(String::from_str("-r"));
            args.push(String::from_str("8000"));
            args.push(String::from_str("-c"));
            args.push(String::from_str("1"));
            args.push(String::from_str("-"));
        },
        TranscodeTool::Ffmpeg => {
            args.push(String::from_str("-i"));
            args.push(String::from_str("pipe:0"));
            args.push(String::from_str("-f"));
            args.push(String::from_str(ffmpeg_selector_str(&inv.target)));
            args.push(String::from_str("-ar"));
            args.push(String::from_str("8000"));
            args.push(String::from_str("-ac"));
            args.push(String::from_str("1"));
            args.push(String::from_str("pipe:1"));
        },
    }
    assert(args.deep_view() =~~= invocation_args(*inv));
    args
}

/// What happened when the caller tried to run a conversion tool.
#[derive(Debug, PartialEq, Eq)]
pub enum ToolOutcome {
    /// The tool could not be spawned at all (typically: not installed).
    SpawnFailed { error: String },
    /// The tool ran to completion.
    Exited { success: bool, stdout: Vec<u8>, stderr: String },
}

/// The next move in a conversion: either run an external tool on the given
/// input and report its outcome back, or the conversion is finished with a
/// result.
#[derive(Debug, PartialEq, Eq)]
pub enum TranscodeStep {
    RunTool { invocation: ToolInvocation, input: Vec<u8> },
    Done { result: Result<Vec<u8>, TtsError> },
}

/// Decide what follows an attempt to run a conversion tool.
///
/// Spawn failure of the preferred tool falls back to the secondary tool;
/// spawn failure of the secondary tool is a hard error naming both tools;
/// a tool-reported failure (nonzero exit) is a hard error with the tool's
/// diagnostics and is never retried; a successful exit finishes the
/// conversion with the tool's output stream.
pub fn transcode_followup(
    invocation: &ToolInvocation,
    input: &[u8],
    outcome: ToolOutcome,
) -> (r: TranscodeStep)
    ensures
        (outcome is SpawnFailed && invocation.tool == TranscodeTool::Sox) ==> (
        r matches TranscodeStep::RunTool { invocation: inv, input: inp } && inv == (
        ToolInvocation { tool: TranscodeTool::Ffmpeg, target: invocation.target }) && inp@
            == input@),
        outcome matches ToolOutcome::SpawnFailed { error } ==> invocation.tool
            == TranscodeTool::Ffmpeg ==> (r matches TranscodeStep::Done { result: Err(e) } && (
        e matches TtsError::AudioConversionError(m) && m@
            == "Neither sox nor ffmpeg could be spawned for "@ + invocation.target.display_name_spec()
            + " conversion: "@ + error@ + ". Install sox or ffmpeg."@)),
        outcome matches ToolOutcome::Exited { success, stdout, stderr } ==> ((success ==> (
        r matches TranscodeStep::Done { result: Ok(v) } && v@ == stdout@)) && (!success ==> (
        r matches TranscodeStep::Done { result: Err(e) } && (
        e matches TtsError::AudioConversionError(m) && m@ == invocation.tool.command_name_spec()
            + " "@ + invocation.target.display_name_spec() + " conversion failed: "@ + stderr@)))),
{
    match outcome {
        ToolOutcome::SpawnFailed { error } => {
            match invocation.tool {
                TranscodeTool::Sox => TranscodeStep::RunTool {
                    invocation: ToolInvocation {
                        tool: TranscodeTool::Ffmpeg,
                        target: invocation.target,
                    },
                    input: slice_to_vec(input),
                },
                TranscodeTool::Ffmpeg => {
                    let mut m = String::new();
                    m.append("Neither sox nor ffmpeg could be spawned for ");
                    m.append(invocation.target.display_name());
                    m.append(" conversion: ");
                    m.append(error.as_str());
                    m.append(". Install sox or ffmpeg.");
                    TranscodeStep::Done { result: Err(TtsError::AudioConversionError(m)) }
                },
            }
        },
        ToolOutcome::Exited { success, stdout, stderr } => {
            if success {
                TranscodeStep::Done { result: Ok(stdout) }
            } else {
                let mut m = String::new();
                m.append(invocation.tool.command_name());
                m.append(" ");
                m.append(invocation.target.display_name());
                m.append(" conversion failed: ");
                m.append(stderr.as_str());
                TranscodeStep::Done { result: Err(TtsError::AudioConversionError(m)) }
            }
        },
    }
}

/// The full relation between a WAV buffer, a telephony target and the step
/// `convert_to_raw_telephony` decides on.
pub open spec fn raw_telephony_step(b: Seq<u8>, target: AudioFormat, r: TranscodeStep) -> bool {
    if is_riff(b) {
        r matches TranscodeStep::Done { result } && extraction_result(b, result)
    } else if target.is_telephony_format_spec() {
        r matches TranscodeStep::RunTool { invocation, input } && invocation == (
        ToolInvocation { tool: TranscodeTool::Sox, target }) && input@ == b
    } else {
        r matches TranscodeStep::Done { result: Err(e) } && (
        e matches TtsError::AudioConversionError(m) && m@ == "Unsupported telephony format: "@
            + target.display_name_spec())
    }
}

/// Convert a WAV buffer to a raw telephony format, handling both complete
/// RIFF containers (direct extraction) and headerless synthesis output
/// (external tool, starting with the preferred one).
pub fn convert_to_raw_telephony(wav_data: &[u8], target_format: &AudioFormat) -> (r: TranscodeStep)
    ensures
        raw_telephony_step(wav_data@, *target_format, r),
{
    if has_riff_header(wav_data) {
        let result = extract_raw_audio_from_wav(wav_data, target_format.display_name());
        TranscodeStep::Done { result }
    } else if target_format.is_telephony_format() {
        TranscodeStep::RunTool {
            invocation: ToolInvocation { tool: TranscodeTool::Sox, target: *target_format },
            input: slice_to_vec(wav_data),
        }
    } else {
        let mut m = String::new();
        m.append("Unsupported telephony format: ");
        m.append(target_format.display_name());
        TranscodeStep::Done { result: Err(TtsError::AudioConversionError(m)) }
    }
}

} // verus!
