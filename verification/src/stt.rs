//! What every speech-to-text engine takes and gives, and the parts of each
//! engine's work that are plain computation: the settings handed to the
//! engine and the result made of what it returned.

use crate::error::PipelineError;
use crate::recording::{duration_ms, duration_ms_of};
use crate::text::{glue, join, joined, pair_views, str_eq, text_of, trim, trimmed, views};
use std::path::PathBuf;
use vstd::prelude::*;
use vstd::string::*;

verus! {

/// The bound on one upload to a remote service and its answer, in
/// seconds.
pub const REMOTE_TIMEOUT_SECS: u64 = 120;

/// A stretch of the transcript with its place in the audio.
#[derive(Debug, Clone, PartialEq, Eq)]
pub struct Segment {
    pub start_ms: u64,
    pub end_ms: u64,
    pub text: String,
}

/// A transcript.
#[derive(Debug, Clone, PartialEq, Eq)]
pub struct TranscriptionResult {
    pub text: String,
    /// The language the engine worked in, where it is known.
    pub language: Option<String>,
    pub segments: Vec<Segment>,
    /// How long the inference took.
    pub duration_ms: u64,
}

/// What the caller asks of an engine.
#[derive(Debug, Clone, PartialEq, Eq)]
pub struct TranscriptionOptions {
    /// A language code, or `"auto"`, or nothing.
    pub language: Option<String>,
    /// Terms the engine should be biased towards, in order.
    pub vocabulary: Vec<String>,
}

/// A segment as the encoder-decoder engine reports it, with its bounds in
/// hundredths of a second.
#[derive(Debug, Clone, PartialEq, Eq)]
pub struct RawSegment {
    pub start: i64,
    pub end: i64,
    pub text: String,
}

/// The remote services.
#[derive(Debug, Clone, Copy, PartialEq, Eq, Structural)]
pub enum CloudService {
    OpenAi,
    Groq,
}

/// A segment, with its text as a sequence of characters.
pub struct SegmentView {
    pub start_ms: u64,
    pub end_ms: u64,
    pub text: Seq<char>,
}

/// A transcript, with its texts as sequences of characters.
pub struct Transcript {
    pub text: Seq<char>,
    pub language: Option<Seq<char>>,
    pub segments: Seq<SegmentView>,
    pub duration_ms: u64,
}

/// Options, with their texts as sequences of characters.
pub struct OptionsView {
    pub language: Option<Seq<char>>,
    pub vocabulary: Seq<Seq<char>>,
}

impl View for Segment {
    type V = SegmentView;

    open spec fn view(&self) -> SegmentView {
        SegmentView { start_ms: self.start_ms, end_ms: self.end_ms, text: self.text@ }
    }
}

impl View for TranscriptionResult {
    type V = Transcript;

    open spec fn view(&self) -> Transcript {
        Transcript {
            text: self.text@,
            language: text_of(self.language),
            segments: Seq::new(self.segments@.len(), |i: int| self.segments@[i]@),
            duration_ms: self.duration_ms,
        }
    }
}

impl View for TranscriptionOptions {
    type V = OptionsView;

    open spec fn view(&self) -> OptionsView {
        OptionsView {
            language: text_of(self.language),
            vocabulary: views(self.vocabulary@),
        }
    }
}

/// The transcript of silence: no text, no language, no segment, no time
/// spent.
pub open spec fn empty_transcript() -> Transcript {
    Transcript { text: Seq::empty(), language: None, segments: Seq::empty(), duration_ms: 0 }
}

/// The language the caller insists on: the one given, unless it is
/// `"auto"`.
pub open spec fn requested_language(language: Option<Seq<char>>) -> Option<Seq<char>> {
    match language {
        Some(code) => if code == "auto"@ {
            None
        } else {
            Some(code)
        },
        None => None,
    }
}

/// The language handed to the encoder-decoder engine, which is never left
/// to detect it: the requested one, or English.
pub open spec fn decoding_language(language: Option<Seq<char>>) -> Seq<char> {
    match requested_language(language) {
        Some(code) => code,
        None => "en"@,
    }
}

/// The prompt that carries the vocabulary: its terms, separated by a comma
/// and a space.
pub open spec fn prompt_of(vocabulary: Seq<Seq<char>>) -> Seq<char> {
    joined(vocabulary, ", "@)
}

/// The number of threads an engine runs on, given how many the machine
/// offers: that number kept between one and eight, or four where it is
/// unknown.
pub open spec fn threads_for(available: Option<usize>) -> int {
    match available {
        Some(n) => if n < 1 {
            1
        } else if n > 8 {
            8
        } else {
            n as int
        },
        None => 4,
    }
}

/// Milliseconds for hundredths of a second. A negative time counts as
/// zero, and a time beyond the range of the result as its largest value.
pub open spec fn ms_of_centiseconds(t: int) -> int {
    if t <= 0 {
        0
    } else if t * 10 > u64::MAX {
        u64::MAX as int
    } else {
        t * 10
    }
}

/// The texts of the first `upto` raw segments, one after the other.
pub open spec fn text_upto(raw: Seq<RawSegment>, upto: int) -> Seq<char>
    decreases upto,
{
    if upto <= 0 || upto > raw.len() {
        Seq::empty()
    } else {
        text_upto(raw, upto - 1) + raw[upto - 1].text@
    }
}

/// The segment that a raw segment becomes.
pub open spec fn segment_of(raw: RawSegment) -> SegmentView {
    SegmentView {
        start_ms: ms_of_centiseconds(raw.start as int) as u64,
        end_ms: ms_of_centiseconds(raw.end as int) as u64,
        text: raw.text@,
    }
}

/// The transcript made of what the encoder-decoder engine returned: the
/// segments' texts in a row, trimmed; the requested language, or else the
/// detected one; every segment with its bounds in milliseconds.
pub open spec fn whisper_transcript(
    raw: Seq<RawSegment>,
    detected: Option<Seq<char>>,
    language: Option<Seq<char>>,
    inference_ms: u64,
) -> Transcript {
    Transcript {
        text: trimmed(text_upto(raw, raw.len() as int)),
        language: match requested_language(language) {
            Some(code) => Some(code),
            None => detected,
        },
        segments: Seq::new(raw.len(), |i: int| segment_of(raw[i])),
        duration_ms: inference_ms,
    }
}

/// The transcript made of the transducer engine's text: the text trimmed,
/// no language, and, unless the text is empty, one segment that spans the
/// whole audio.
pub open spec fn parakeet_transcript(
    raw_text: Seq<char>,
    sample_count: nat,
    inference_ms: u64,
) -> Transcript {
    let text = trimmed(raw_text);
    Transcript {
        text,
        language: None,
        segments: if text.len() == 0 {
            Seq::empty()
        } else {
            seq![SegmentView { start_ms: 0, end_ms: duration_ms_of(sample_count) as u64, text }]
        },
        duration_ms: inference_ms,
    }
}

/// The transcript made of a remote service's answer. The second service
/// reports no language.
pub open spec fn cloud_transcript(
    service: CloudService,
    text: Seq<char>,
    language: Option<Seq<char>>,
    segments: Seq<SegmentView>,
    inference_ms: u64,
) -> Transcript {
    Transcript {
        text,
        language: match service {
            CloudService::OpenAi => language,
            CloudService::Groq => None,
        },
        segments,
        duration_ms: inference_ms,
    }
}

/// The model a remote service is asked for: the first service has one, the
/// second the one named, or its default where none is named.
pub open spec fn cloud_model_name(service: CloudService, model: Seq<char>) -> Seq<char> {
    match service {
        CloudService::OpenAi => "whisper-1"@,
        CloudService::Groq => if model.len() == 0 {
            "whisper-large-v3-turbo"@
        } else {
            model
        },
    }
}

/// The text fields of the upload, beside the audio file: the model, the
/// answer's format, the language if one is requested, and the vocabulary
/// as a prompt if there is any.
pub open spec fn form_fields(service: CloudService, options: OptionsView, model: Seq<char>) -> Seq<
    (Seq<char>, Seq<char>),
> {
    let fixed = seq![
        ("model"@, cloud_model_name(service, model)),
        ("response_format"@, "verbose_json"@),
    ];
    let with_language = match requested_language(options.language) {
        Some(code) => fixed.push(("language"@, code)),
        None => fixed,
    };
    if options.vocabulary.len() == 0 {
        with_language
    } else {
        with_language.push(("prompt"@, prompt_of(options.vocabulary)))
    }
}

/// Where a service takes uploads.
pub open spec fn endpoint_of(service: CloudService) -> Seq<char> {
    match service {
        CloudService::OpenAi => "https://api.openai.com/v1/audio/transcriptions"@,
        CloudService::Groq => "https://api.groq.com/openai/v1/audio/transcriptions"@,
    }
}

/// Whether an HTTP status means success: the statuses from 200 to 299.
pub open spec fn is_success_status(status: u16) -> bool {
    200 <= status < 300
}

/// The four files of a transducer model and the settings of its
/// recognizer.
#[derive(Debug, PartialEq, Eq)]
pub struct ParakeetSetup {
    pub encoder: PathBuf,
    pub decoder: PathBuf,
    pub joiner: PathBuf,
    pub tokens: PathBuf,
    pub num_threads: i32,
    pub sample_rate: u32,
    pub feature_dim: i32,
    pub model_type: String,
    /// The execution provider, where the default is not to be used.
    pub provider: Option<String>,
    pub debug: bool,
}

/// Says how the transducer engine is built from a model's files, which
/// are, in the catalog's order, the encoder, the decoder, the joiner and the
/// tokens. The engine runs on as many threads as `inference_threads`
/// allows and takes 16 kHz audio with 80 features as a NeMo transducer;
/// `accelerated` asks for the CoreML provider.
///
/// A model of fewer than four files cannot be set up: `EngineLoadFailed`.
pub fn parakeet_setup(files: Vec<PathBuf>, available_threads: Option<usize>, accelerated: bool) -> (setup:
    Result<ParakeetSetup, PipelineError>)
    ensures
        files@.len() < 4 ==> {
            &&& setup matches Err(PipelineError::EngineLoadFailed { detail })
            &&& detail@ == "Parakeet model needs encoder, decoder, joiner and tokens files"@
        },
        files@.len() >= 4 ==> {
            &&& setup matches Ok(made)
            &&& made.encoder == files@[0]
            &&& made.decoder == files@[1]
            &&& made.joiner == files@[2]
            &&& made.tokens == files@[3]
            &&& made.num_threads == threads_for(available_threads)
            &&& made.sample_rate == 16000
            &&& made.feature_dim == 80
            &&& made.model_type@ == "nemo_transducer"@
            &&& text_of(made.provider) == if accelerated {
                Some("coreml"@)
            } else {
                None::<Seq<char>>
            }
            &&& !made.debug
        },
{
    if files.len() < 4 {
        return Err(
            PipelineError::EngineLoadFailed {
                detail: String::from_str(
                    "Parakeet model needs encoder, decoder, joiner and tokens files",
                ),
            },
        );
    }
    let mut rest = files;
    let encoder = rest.remove(0);
    let decoder = rest.remove(0);
    let joiner = rest.remove(0);
    let tokens = rest.remove(0);
    Ok(
        ParakeetSetup {
            encoder,
            decoder,
            joiner,
            tokens,
            num_threads: inference_threads(available_threads),
            sample_rate: 16000,
            feature_dim: 80,
            model_type: String::from_str("nemo_transducer"),
            provider: if accelerated {
                Some(String::from_str("coreml"))
            } else {
                None
            },
            debug: false,
        },
    )
}

/// The transcript returned for silence.
pub fn empty_result() -> (result: TranscriptionResult)
    ensures
        result@ == empty_transcript(),
{
    let result = TranscriptionResult {
        text: String::new(),
        language: None,
        segments: Vec::new(),
        duration_ms: 0,
    };
    assert(result@.segments =~= Seq::<SegmentView>::empty());
    result
}

/// The language the caller insists on, if any.
pub fn explicit_language(options: &TranscriptionOptions) -> (language: Option<String>)
    ensures
        text_of(language) == requested_language(options@.language),
{
    match &options.language {
        Some(code) => {
            if str_eq(code.as_str(), "auto") {
                None
            } else {
                Some(code.clone())
            }
        },
        None => None,
    }
}

/// The language handed to the encoder-decoder engine.
pub fn whisper_language(options: &TranscriptionOptions) -> (language: String)
    ensures
        language@ == decoding_language(options@.language),
{
    match explicit_language(options) {
        Some(code) => code,
        None => String::from_str("en"),
    }
}

/// The vocabulary as a prompt; empty where there is no vocabulary.
pub fn vocabulary_prompt(options: &TranscriptionOptions) -> (prompt: String)
    ensures
        prompt@ == prompt_of(options@.vocabulary),
{
    join(&options.vocabulary, ", ")
}

/// The number of threads to run an engine on.
pub fn inference_threads(available: Option<usize>) -> (threads: i32)
    ensures
        threads == threads_for(available),
        1 <= threads <= 8,
{
    match available {
        Some(n) => {
            if n < 1 {
                1
            } else if n > 8 {
                8
            } else {
                n as i32
            }
        },
        None => 4,
    }
}

/// Converts a time in hundredths of a second to milliseconds.
pub fn centiseconds_to_ms(t: i64) -> (ms: u64)
    ensures
        ms == ms_of_centiseconds(t as int),
{
    if t <= 0 {
        0
    } else {
        let t = t as u64;
        if t > u64::MAX / 10 {
            u64::MAX
        } else {
            t * 10
        }
    }
}

/// Makes the transcript of what the encoder-decoder engine returned.
pub fn assemble_whisper_result(
    raw: &Vec<RawSegment>,
    detected: Option<String>,
    options: &TranscriptionOptions,
    inference_ms: u64,
) -> (result: TranscriptionResult)
    ensures
        result@ == whisper_transcript(raw@, text_of(detected), options@.language, inference_ms),
{
    let mut segments: Vec<Segment> = Vec::new();
    let mut full_text = String::new();
    let mut i: usize = 0;
    while i < raw.len()
        invariant
            i <= raw.len(),
            segments.len() == i,
            full_text@ == text_upto(raw@, i as int),
            forall|k: int| 0 <= k < i ==> (#[trigger] segments[k])@ == segment_of(raw[k]),
        decreases raw.len() - i,
    {
        full_text.append(raw[i].text.as_str());
        segments.push(
            Segment {
                start_ms: centiseconds_to_ms(raw[i].start),
                end_ms: centiseconds_to_ms(raw[i].end),
                text: raw[i].text.clone(),
            },
        );
        i += 1;
    }
    let language = match explicit_language(options) {
        Some(code) => Some(code),
        None => detected,
    };
    let result = TranscriptionResult {
        text: trim(full_text.as_str()),
        language,
        segments,
        duration_ms: inference_ms,
    };
    assert(result@.segments =~= Seq::new(raw@.len(), |i: int| segment_of(raw@[i])));
    result
}

/// Makes the transcript of the transducer engine's text.
pub fn assemble_parakeet_result(raw_text: &str, sample_count: usize, inference_ms: u64) -> (result:
    TranscriptionResult)
    ensures
        result@ == parakeet_transcript(raw_text@, sample_count as nat, inference_ms),
{
    let text = trim(raw_text);
    let mut segments: Vec<Segment> = Vec::new();
    if text.as_str().unicode_len() != 0 {
        segments.push(
            Segment { start_ms: 0, end_ms: duration_ms(sample_count), text: text.clone() },
        );
    }
    let result = TranscriptionResult { text, language: None, segments, duration_ms: inference_ms };
    assert(result@.segments =~= parakeet_transcript(
        raw_text@,
        sample_count as nat,
        inference_ms,
    ).segments);
    result
}

/// Makes the transcript of a remote service's answer.
pub fn assemble_cloud_result(
    service: CloudService,
    text: String,
    language: Option<String>,
    segments: Vec<Segment>,
    inference_ms: u64,
) -> (result: TranscriptionResult)
    ensures
        result@ == cloud_transcript(
            service,
            text@,
            text_of(language),
            Seq::new(segments@.len(), |i: int| segments@[i]@),
            inference_ms,
        ),
{
    let language = match service {
        CloudService::OpenAi => language,
        CloudService::Groq => None,
    };
    TranscriptionResult { text, language, segments, duration_ms: inference_ms }
}

/// The address a service takes uploads at.
pub fn cloud_endpoint(service: CloudService) -> (url: String)
    ensures
        url@ == endpoint_of(service),
{
    match service {
        CloudService::OpenAi => String::from_str("https://api.openai.com/v1/audio/transcriptions"),
        CloudService::Groq => String::from_str(
            "https://api.groq.com/openai/v1/audio/transcriptions",
        ),
    }
}

/// The value of the authorization header for `api_key`.
pub fn bearer_token(api_key: &str) -> (value: String)
    ensures
        value@ == "Bearer "@ + api_key@,
{
    glue("Bearer ", api_key)
}

/// The text fields of the upload to a remote service.
pub fn cloud_form_fields(service: CloudService, options: &TranscriptionOptions, model: &str) -> (fields:
    Vec<(String, String)>)
    ensures
        pair_views(fields@) == form_fields(service, options@, model@),
{
    let model_name = match service {
        CloudService::OpenAi => String::from_str("whisper-1"),
        CloudService::Groq => {
            if model.unicode_len() == 0 {
                String::from_str("whisper-large-v3-turbo")
            } else {
                String::from_str(model)
            }
        },
    };
    let mut fields: Vec<(String, String)> = Vec::new();
    fields.push((String::from_str("model"), model_name));
    fields.push((String::from_str("response_format"), String::from_str("verbose_json")));
    match explicit_language(options) {
        Some(code) => {
            fields.push((String::from_str("language"), code));
        },
        None => {},
    }
    if options.vocabulary.len() != 0 {
        fields.push((String::from_str("prompt"), vocabulary_prompt(options)));
    }
    assert(pair_views(fields@) =~= form_fields(service, options@, model@));
    fields
}

/// Judges a remote service's answer by its status: a status from 200 to
/// 299 lets the answer through, any other is a remote error that carries
/// the status and the body.
pub fn check_remote_status(status: u16, body: String) -> (checked: Result<String, PipelineError>)
    ensures
        is_success_status(status) ==> checked == Ok::<String, PipelineError>(body),
        !is_success_status(status) ==> checked == Err::<String, PipelineError>(
            PipelineError::RemoteApiError { status, message: body },
        ),
{
    if 200 <= status && status < 300 {
        Ok(body)
    } else {
        Err(PipelineError::RemoteApiError { status, message: body })
    }
}

} // verus!
