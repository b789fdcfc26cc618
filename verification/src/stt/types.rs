//! Selectors, request and response records of the transcription pipeline.

use vstd::prelude::*;
pub use crate::envelope::{ApiErrorDetail, ApiErrorResponse};
use vstd::string::StringExecFns;
use crate::json::{
    Field, JsonTree, count_field, error_text, json_document, json_tree, object_field, optional,
    parse_document, read_count, read_object, read_text, settled, text_field,
};
use crate::scalar::{Scalar, ScalarView};
use crate::stt::error::{SttError, SttFailure};

verus! {

/// Transcription model.
#[derive(Debug, Clone, Copy, PartialEq, Eq, Structural)]
pub enum Model {
    Gpt4oTranscribe,
    Gpt4oMiniTranscribe,
    Whisper1,
}

impl Model {
    /// The model's name on the wire.
    pub open spec fn wire_name(self) -> Seq<char> {
        match self {
            Model::Gpt4oTranscribe => "gpt-4o-transcribe"@,
            Model::Gpt4oMiniTranscribe => "gpt-4o-mini-transcribe"@,
            Model::Whisper1 => "whisper-1"@,
        }
    }

    /// The name on the wire, as a string slice.
    pub fn as_str(&self) -> (r: &str)
        ensures
            r@ == self.wire_name(),
    {
        match self {
            Model::Gpt4oTranscribe => "gpt-4o-transcribe",
            Model::Gpt4oMiniTranscribe => "gpt-4o-mini-transcribe",
            Model::Whisper1 => "whisper-1",
        }
    }
}

/// Layout in which the transcript is asked for.
#[derive(Debug, Clone, Copy, PartialEq, Eq, Structural)]
pub enum ResponseFormat {
    Json,
    Text,
    Srt,
    VerboseJson,
    Vtt,
}

impl ResponseFormat {
    /// The format's name on the wire.
    pub open spec fn wire_name(self) -> Seq<char> {
        match self {
            ResponseFormat::Json => "json"@,
            ResponseFormat::Text => "text"@,
            ResponseFormat::Srt => "srt"@,
            ResponseFormat::VerboseJson => "verbose_json"@,
            ResponseFormat::Vtt => "vtt"@,
        }
    }

    /// The name on the wire, as a string slice.
    pub fn as_str(&self) -> (r: &str)
        ensures
            r@ == self.wire_name(),
    {
        match self {
            ResponseFormat::Json => "json",
            ResponseFormat::Text => "text",
            ResponseFormat::Srt => "srt",
            ResponseFormat::VerboseJson => "verbose_json",
            ResponseFormat::Vtt => "vtt",
        }
    }
}

/// One transcription call, as the builder accumulates it.
#[derive(Debug, Clone)]
pub struct TranscriptionRequest {
    pub file: Vec<u8>,
    pub file_name: String,
    pub model: Model,
    pub language: Option<String>,
    pub prompt: Option<String>,
    pub response_format: Option<ResponseFormat>,
    pub temperature: Option<Scalar>,
}

/// Model of a [`TranscriptionRequest`].
pub struct TranscriptionRequestView {
    pub file: Seq<u8>,
    pub file_name: Seq<char>,
    pub model: Model,
    pub language: Option<Seq<char>>,
    pub prompt: Option<Seq<char>>,
    pub response_format: Option<ResponseFormat>,
    pub temperature: Option<ScalarView>,
}

impl View for TranscriptionRequest {
    type V = TranscriptionRequestView;

    open spec fn view(&self) -> TranscriptionRequestView {
        TranscriptionRequestView {
            file: self.file@,
            file_name: self.file_name@,
            model: self.model,
            language: self.language.deep_view(),
            prompt: self.prompt.deep_view(),
            response_format: self.response_format,
            temperature: match self.temperature {
                Some(t) => Some(t@),
                None => None,
            },
        }
    }
}

/// The request that a builder starts from: no audio, no file name, the
/// model `whisper-1`, nothing else set.
pub open spec fn empty_transcription_request() -> TranscriptionRequestView {
    TranscriptionRequestView {
        file: Seq::empty(),
        file_name: Seq::empty(),
        model: Model::Whisper1,
        language: None,
        prompt: None,
        response_format: None,
        temperature: None,
    }
}

impl Default for TranscriptionRequest {
    /// The empty request.
    fn default() -> (r: Self)
        ensures
            r@ == empty_transcription_request(),
    {
        TranscriptionRequest {
            file: Vec::new(),
            file_name: String::new(),
            model: Model::Whisper1,
            language: None,
            prompt: None,
            response_format: None,
            temperature: None,
        }
    }
}

/// Token accounting of the audio and text given in. A field that the
/// remote side left out is `None`, never zero.
#[derive(Debug, Clone, Copy, PartialEq, Eq, Structural)]
pub struct TokenDetails {
    pub text_tokens: Option<u32>,
    pub audio_tokens: Option<u32>,
}

/// Token accounting of one call. A field that the remote side left out is
/// `None`, never zero.
#[derive(Debug, Clone)]
pub struct Usage {
    pub usage_type: Option<String>,
    pub input_tokens: Option<u32>,
    pub input_token_details: Option<TokenDetails>,
    pub output_tokens: Option<u32>,
    pub total_tokens: Option<u32>,
}

/// Model of a [`Usage`].
pub struct UsageRecord {
    pub usage_type: Option<Seq<char>>,
    pub input_tokens: Option<u32>,
    pub input_token_details: Option<TokenDetails>,
    pub output_tokens: Option<u32>,
    pub total_tokens: Option<u32>,
}

impl View for Usage {
    type V = UsageRecord;

    open spec fn view(&self) -> UsageRecord {
        UsageRecord {
            usage_type: self.usage_type.deep_view(),
            input_tokens: self.input_tokens,
            input_token_details: self.input_token_details,
            output_tokens: self.output_tokens,
            total_tokens: self.total_tokens,
        }
    }
}

/// Whether two counts that may be unset are the same.
fn same_count(a: Option<u32>, b: Option<u32>) -> (r: bool)
    ensures
        r == (a == b),
{
    match (a, b) {
        (Some(x), Some(y)) => x == y,
        (None, None) => true,
        _ => false,
    }
}

/// Whether two token details that may be unset are the same.
fn same_details(a: Option<TokenDetails>, b: Option<TokenDetails>) -> (r: bool)
    ensures
        r == (a == b),
{
    match (a, b) {
        (Some(x), Some(y)) => same_count(x.text_tokens, y.text_tokens) && same_count(
            x.audio_tokens,
            y.audio_tokens,
        ),
        (None, None) => true,
        _ => false,
    }
}

impl PartialEq for Usage {
    /// Two usage records are equal where every field is.
    fn eq(&self, other: &Self) -> (r: bool) {
        let same_type = match (&self.usage_type, &other.usage_type) {
            (Some(a), Some(b)) => *a == *b,
            (None, None) => true,
            _ => false,
        };
        assert(same_type == (self@.usage_type == other@.usage_type));
        same_type && same_count(self.input_tokens, other.input_tokens) && same_details(
            self.input_token_details,
            other.input_token_details,
        ) && same_count(self.output_tokens, other.output_tokens) && same_count(
            self.total_tokens,
            other.total_tokens,
        )
    }
}

impl vstd::std_specs::cmp::PartialEqSpecImpl for Usage {
    open spec fn obeys_eq_spec() -> bool {
        true
    }

    open spec fn eq_spec(&self, other: &Self) -> bool {
        self@ == other@
    }
}

/// What a successful transcription call returns.
#[derive(Debug, Clone)]
pub struct TranscriptionResponse {
    pub text: String,
    pub usage: Option<Usage>,
}

/// Model of a [`TranscriptionResponse`].
pub struct Transcript {
    pub text: Seq<char>,
    pub usage: Option<UsageRecord>,
}

impl View for TranscriptionResponse {
    type V = Transcript;

    open spec fn view(&self) -> Transcript {
        Transcript {
            text: self.text@,
            usage: match self.usage {
                Some(u) => Some(u@),
                None => None,
            },
        }
    }
}

/// Model of the outcome of a transcription call.
pub open spec fn transcription_outcome(r: Result<TranscriptionResponse, SttError>) -> Result<
    Transcript,
    SttFailure,
> {
    match r {
        Ok(response) => Ok(response@),
        Err(e) => Err(e@),
    }
}

/// The detail of the error for a record without a text `text`.
pub open spec fn text_detail() -> Seq<char> {
    "missing or invalid field `text`"@
}

/// The detail of the error for a record whose `usage` is no usage record.
pub open spec fn usage_detail() -> Seq<char> {
    "invalid field `usage`"@
}

/// The token details that an object holds: each count left out, `null` or
/// a count of 32 bits. `None` where a member is of another kind.
pub open spec fn token_details_in(object: JsonTree) -> Option<TokenDetails> {
    let text_tokens = count_field(object, "text_tokens"@);
    let audio_tokens = count_field(object, "audio_tokens"@);
    if text_tokens is Mismatch || audio_tokens is Mismatch {
        None
    } else {
        Some(
            TokenDetails {
                text_tokens: optional(text_tokens),
                audio_tokens: optional(audio_tokens),
            },
        )
    }
}

/// The token details nested in a usage object under `input_token_details`:
/// `Absent` where they are left out, `Mismatch` where the member is no
/// object or holds a member of another kind.
pub open spec fn nested_details_in(object: JsonTree) -> Field<TokenDetails> {
    match object_field(object, "input_token_details"@) {
        Field::Absent => Field::Absent,
        Field::Present(inner) => match token_details_in(inner) {
            Some(details) => Field::Present(details),
            None => Field::Mismatch,
        },
        Field::Mismatch => Field::Mismatch,
    }
}

/// The usage record that an object holds: every member left out, `null` or
/// of its kind. `None` where a member is of another kind.
pub open spec fn usage_in(object: JsonTree) -> Option<UsageRecord> {
    let usage_type = text_field(object, "type"@);
    let input_tokens = count_field(object, "input_tokens"@);
    let details = nested_details_in(object);
    let output_tokens = count_field(object, "output_tokens"@);
    let total_tokens = count_field(object, "total_tokens"@);
    if usage_type is Mismatch || input_tokens is Mismatch || details is Mismatch
        || output_tokens is Mismatch || total_tokens is Mismatch {
        None
    } else {
        Some(
            UsageRecord {
                usage_type: optional(usage_type),
                input_tokens: optional(input_tokens),
                input_token_details: optional(details),
                output_tokens: optional(output_tokens),
                total_tokens: optional(total_tokens),
            },
        )
    }
}

/// The transcription record that a document holds, or the detail of what is
/// wrong with it. The record needs a text `text`; `usage` may be left out
/// or `null`, and is a usage record otherwise. Members that the record does
/// not know are passed over.
pub open spec fn transcript_in(document: JsonTree) -> Result<Transcript, Seq<char>> {
    match text_field(document, "text"@) {
        Field::Present(text) => match object_field(document, "usage"@) {
            Field::Absent => Ok(Transcript { text, usage: None }),
            Field::Present(inner) => match usage_in(inner) {
                Some(usage) => Ok(Transcript { text, usage: Some(usage) }),
                None => Err(usage_detail()),
            },
            Field::Mismatch => Err(usage_detail()),
        },
        _ => Err(text_detail()),
    }
}

/// The outcome of decoding a success body: the record that the body holds,
/// or `ParseError` with the parser's message where the body is no JSON and
/// with the record's own detail where the JSON is no record.
pub open spec fn transcript_of(body: Seq<u8>) -> Result<Transcript, SttFailure> {
    match json_document(body) {
        Ok(document) => match transcript_in(document) {
            Ok(transcript) => Ok(transcript),
            Err(detail) => Err(SttFailure::ParseError(detail)),
        },
        Err(message) => Err(SttFailure::ParseError(message)),
    }
}

impl TokenDetails {
    /// Reads token details out of a parsed object.
    pub fn from_document(object: &serde_json::Value) -> (r: Option<TokenDetails>)
        ensures
            r == token_details_in(json_tree(*object)),
    {
        let text_tokens = read_count(object, "text_tokens");
        let audio_tokens = read_count(object, "audio_tokens");
        match (text_tokens, audio_tokens) {
            (Field::Mismatch, _) => None,
            (_, Field::Mismatch) => None,
            (text_tokens, audio_tokens) => Some(
                TokenDetails {
                    text_tokens: settled(text_tokens),
                    audio_tokens: settled(audio_tokens),
                },
            ),
        }
    }

    /// Reads the token details nested in a usage object.
    fn nested_in(object: &serde_json::Value) -> (r: Field<TokenDetails>)
        ensures
            r == nested_details_in(json_tree(*object)),
    {
        match read_object(object, "input_token_details") {
            Field::Absent => Field::Absent,
            Field::Present(inner) => match TokenDetails::from_document(inner) {
                Some(details) => Field::Present(details),
                None => Field::Mismatch,
            },
            Field::Mismatch => Field::Mismatch,
        }
    }
}

/// Model of an optional usage record.
pub open spec fn usage_view(r: Option<Usage>) -> Option<UsageRecord> {
    match r {
        Some(u) => Some(u@),
        None => None,
    }
}

impl Usage {
    /// Reads a usage record out of a parsed object.
    pub fn from_document(object: &serde_json::Value) -> (r: Option<Usage>)
        ensures
            usage_view(r) == usage_in(json_tree(*object)),
    {
        let usage_type = read_text(object, "type");
        let input_tokens = read_count(object, "input_tokens");
        let details = TokenDetails::nested_in(object);
        let output_tokens = read_count(object, "output_tokens");
        let total_tokens = read_count(object, "total_tokens");
        if matches!(usage_type, Field::Mismatch) || matches!(input_tokens, Field::Mismatch)
            || matches!(details, Field::Mismatch) || matches!(output_tokens, Field::Mismatch)
            || matches!(total_tokens, Field::Mismatch) {
            None
        } else {
            Some(
                Usage {
                    usage_type: settled(usage_type),
                    input_tokens: settled(input_tokens),
                    input_token_details: settled(details),
                    output_tokens: settled(output_tokens),
                    total_tokens: settled(total_tokens),
                },
            )
        }
    }
}

/// Model of what reading a record out of a document returns.
pub open spec fn record_view(r: Result<TranscriptionResponse, String>) -> Result<
    Transcript,
    Seq<char>,
> {
    match r {
        Ok(response) => Ok(response@),
        Err(detail) => Err(detail@),
    }
}

impl TranscriptionResponse {
    /// Reads a transcription record out of a parsed document.
    pub fn from_document(document: &serde_json::Value) -> (r: Result<
        TranscriptionResponse,
        String,
    >)
        ensures
            record_view(r) == transcript_in(json_tree(*document)),
    {
        match read_text(document, "text") {
            Field::Present(text) => match read_object(document, "usage") {
                Field::Absent => Ok(TranscriptionResponse { text, usage: None }),
                Field::Present(inner) => match Usage::from_document(inner) {
                    Some(usage) => Ok(TranscriptionResponse { text, usage: Some(usage) }),
                    None => Err(String::from_str("invalid field `usage`")),
                },
                Field::Mismatch => Err(String::from_str("invalid field `usage`")),
            },
            _ => Err(String::from_str("missing or invalid field `text`")),
        }
    }

    /// Decodes the body of a successful call.
    pub fn from_json(body: &[u8]) -> (r: Result<TranscriptionResponse, SttError>)
        ensures
            transcription_outcome(r) == transcript_of(body@),
    {
        match parse_document(body) {
            Ok(document) => match TranscriptionResponse::from_document(&document) {
                Ok(response) => Ok(response),
                Err(detail) => Err(SttError::ParseError(detail)),
            },
            Err(error) => Err(SttError::ParseError(error_text(&error))),
        }
    }
}

} // verus!
