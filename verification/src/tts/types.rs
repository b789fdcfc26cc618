//! Selectors, request and response records of the synthesis pipeline, and
//! the JSON form in which a request travels.

use vstd::prelude::*;
pub use crate::envelope::{ApiErrorDetail, ApiErrorResponse};
use vstd::string::{StrSliceExecFns, StringExecFns};
use vstd::utf8::encode_utf8;
use crate::json::{
    Member, ObjectWriter, error_text, json_string_token, object_text, string_token,
};
use crate::scalar::{Scalar, ScalarView};
use crate::tts::error::{TtsError, TtsFailure};

verus! {

/// Synthesis model.
#[derive(Debug, Clone, Copy, PartialEq, Eq, Structural)]
pub enum TtsModel {
    Tts1,
    Tts1Hd,
    Gpt4oMiniTts,
}

impl TtsModel {
    /// The model's name on the wire.
    pub open spec fn wire_name(self) -> Seq<char> {
        match self {
            TtsModel::Tts1 => "tts-1"@,
            TtsModel::Tts1Hd => "tts-1-hd"@,
            TtsModel::Gpt4oMiniTts => "gpt-4o-mini-tts"@,
        }
    }

    /// The name on the wire, as a string slice.
    pub fn as_str(&self) -> (r: &str)
        ensures
            r@ == self.wire_name(),
    {
        match self {
            TtsModel::Tts1 => "tts-1",
            TtsModel::Tts1Hd => "tts-1-hd",
            TtsModel::Gpt4oMiniTts => "gpt-4o-mini-tts",
        }
    }
}

/// Voice that speaks the text.
#[derive(Debug, Clone, Copy, PartialEq, Eq, Structural)]
pub enum Voice {
    Alloy,
    Ash,
    Ballad,
    Coral,
    Echo,
    Fable,
    Onyx,
    Nova,
    Sage,
    Shimmer,
    Verse,
}

impl Voice {
    /// The voice's name on the wire.
    pub open spec fn wire_name(self) -> Seq<char> {
        match self {
            Voice::Alloy => "alloy"@,
            Voice::Ash => "ash"@,
            Voice::Ballad => "ballad"@,
            Voice::Coral => "coral"@,
            Voice::Echo => "echo"@,
            Voice::Fable => "fable"@,
            Voice::Onyx => "onyx"@,
            Voice::Nova => "nova"@,
            Voice::Sage => "sage"@,
            Voice::Shimmer => "shimmer"@,
            Voice::Verse => "verse"@,
        }
    }

    /// The name on the wire, as a string slice.
    pub fn as_str(&self) -> (r: &str)
        ensures
            r@ == self.wire_name(),
    {
        match self {
            Voice::Alloy => "alloy",
            Voice::Ash => "ash",
            Voice::Ballad => "ballad",
            Voice::Coral => "coral",
            Voice::Echo => "echo",
            Voice::Fable => "fable",
            Voice::Onyx => "onyx",
            Voice::Nova => "nova",
            Voice::Sage => "sage",
            Voice::Shimmer => "shimmer",
            Voice::Verse => "verse",
        }
    }
}

/// Encoding of the audio that comes back.
#[derive(Debug, Clone, Copy, PartialEq, Eq, Structural)]
pub enum AudioFormat {
    Mp3,
    Opus,
    Aac,
    Flac,
    Wav,
    Pcm,
}

impl AudioFormat {
    /// The format's name on the wire.
    pub open spec fn wire_name(self) -> Seq<char> {
        match self {
            AudioFormat::Mp3 => "mp3"@,
            AudioFormat::Opus => "opus"@,
            AudioFormat::Aac => "aac"@,
            AudioFormat::Flac => "flac"@,
            AudioFormat::Wav => "wav"@,
            AudioFormat::Pcm => "pcm"@,
        }
    }

    /// The name on the wire, as a string slice.
    pub fn as_str(&self) -> (r: &str)
        ensures
            r@ == self.wire_name(),
    {
        match self {
            AudioFormat::Mp3 => "mp3",
            AudioFormat::Opus => "opus",
            AudioFormat::Aac => "aac",
            AudioFormat::Flac => "flac",
            AudioFormat::Wav => "wav",
            AudioFormat::Pcm => "pcm",
        }
    }
}

impl Default for AudioFormat {
    /// The format that the endpoint answers in when none is asked for.
    fn default() -> (r: Self)
        ensures
            r == AudioFormat::Mp3,
    {
        AudioFormat::Mp3
    }
}

/// One synthesis call, as the builder accumulates it.
#[derive(Debug, Clone)]
pub struct SpeechRequest {
    pub input: String,
    pub model: TtsModel,
    pub voice: Voice,
    pub instructions: Option<String>,
    pub response_format: Option<AudioFormat>,
    pub speed: Option<Scalar>,
}

/// Model of a [`SpeechRequest`].
pub struct SpeechRequestView {
    pub input: Seq<char>,
    pub model: TtsModel,
    pub voice: Voice,
    pub instructions: Option<Seq<char>>,
    pub response_format: Option<AudioFormat>,
    pub speed: Option<ScalarView>,
}

/// Model of a speed that may be unset.
pub open spec fn speed_view(speed: Option<Scalar>) -> Option<ScalarView> {
    match speed {
        Some(s) => Some(s@),
        None => None,
    }
}

impl View for SpeechRequest {
    type V = SpeechRequestView;

    open spec fn view(&self) -> SpeechRequestView {
        SpeechRequestView {
            input: self.input@,
            model: self.model,
            voice: self.voice,
            instructions: self.instructions.deep_view(),
            response_format: self.response_format,
            speed: speed_view(self.speed),
        }
    }
}

/// The request that a builder starts from: no input, the model `tts-1`,
/// the voice `alloy`, nothing else set.
pub open spec fn empty_speech_request() -> SpeechRequestView {
    SpeechRequestView {
        input: Seq::empty(),
        model: TtsModel::Tts1,
        voice: Voice::Alloy,
        instructions: None,
        response_format: None,
        speed: None,
    }
}

impl Default for SpeechRequest {
    /// The empty request.
    fn default() -> (r: Self)
        ensures
            r@ == empty_speech_request(),
    {
        SpeechRequest {
            input: String::new(),
            model: TtsModel::Tts1,
            voice: Voice::Alloy,
            instructions: None,
            response_format: None,
            speed: None,
        }
    }
}

/// A synthesis request in the shape of the wire: every selector as its
/// name, every unset field absent.
#[derive(Debug, Clone)]
pub struct SpeechRequestJson {
    pub input: String,
    pub model: String,
    pub voice: String,
    pub instructions: Option<String>,
    pub response_format: Option<String>,
    pub speed: Option<Scalar>,
}

/// Model of a [`SpeechRequestJson`].
pub struct SpeechRecord {
    pub input: Seq<char>,
    pub model: Seq<char>,
    pub voice: Seq<char>,
    pub instructions: Option<Seq<char>>,
    pub response_format: Option<Seq<char>>,
    pub speed: Option<ScalarView>,
}

impl View for SpeechRequestJson {
    type V = SpeechRecord;

    open spec fn view(&self) -> SpeechRecord {
        SpeechRecord {
            input: self.input@,
            model: self.model@,
            voice: self.voice@,
            instructions: self.instructions.deep_view(),
            response_format: self.response_format.deep_view(),
            speed: speed_view(self.speed),
        }
    }
}

/// The wire record of a request.
pub open spec fn speech_record(request: SpeechRequestView) -> SpeechRecord {
    SpeechRecord {
        input: request.input,
        model: request.model.wire_name(),
        voice: request.voice.wire_name(),
        instructions: request.instructions,
        response_format: match request.response_format {
            Some(format) => Some(format.wire_name()),
            None => None,
        },
        speed: request.speed,
    }
}

impl From<SpeechRequest> for SpeechRequestJson {
    /// Projects a request onto its wire record.
    fn from(req: SpeechRequest) -> (r: Self)
        ensures
            r@ == speech_record(req@),
    {
        SpeechRequestJson {
            input: req.input,
            model: String::from_str(req.model.as_str()),
            voice: String::from_str(req.voice.as_str()),
            instructions: req.instructions,
            response_format: match req.response_format {
                Some(format) => Some(String::from_str(format.as_str())),
                None => None,
            },
            speed: req.speed,
        }
    }
}

impl vstd::std_specs::convert::FromSpecImpl<SpeechRequest> for SpeechRequestJson {
    /// The conversion is specified by the `ensures` of `from`, over models;
    /// two records with the same model need not be the same value.
    open spec fn obeys_from_spec() -> bool {
        false
    }

    open spec fn from_spec(req: SpeechRequest) -> Self {
        choose|r: SpeechRequestJson| r@ == speech_record(req@)
    }
}

/* The wire form */

/// The member for a field that may be unset: one member, or none.
pub open spec fn optional_member(key: Seq<char>, token: Option<Seq<char>>) -> Seq<Member> {
    match token {
        Some(t) => seq![Member { key, token: t }],
        None => Seq::empty(),
    }
}

/// The string token of a text that may be unset.
pub open spec fn optional_token(text: Option<Seq<char>>) -> Option<Seq<char>> {
    match text {
        Some(t) => Some(json_string_token(t)),
        None => None,
    }
}

/// The number token of a speed that may be unset: its rendering.
pub open spec fn speed_token(speed: Option<ScalarView>) -> Option<Seq<char>> {
    match speed {
        Some(s) => Some(s.text),
        None => None,
    }
}

/// The members of a record on the wire, in their order: `input`, `model`,
/// `voice`, then `instructions`, `response_format` and `speed` as far as
/// they are set. An unset field has no member; it is not written as `null`.
pub open spec fn speech_members(record: SpeechRecord) -> Seq<Member> {
    seq![
        Member { key: "input"@, token: json_string_token(record.input) },
        Member { key: "model"@, token: json_string_token(record.model) },
        Member { key: "voice"@, token: json_string_token(record.voice) },
    ] + optional_member("instructions"@, optional_token(record.instructions)) + optional_member(
        "response_format"@,
        optional_token(record.response_format),
    ) + optional_member("speed"@, speed_token(record.speed))
}

/// A record as JSON text.
pub open spec fn speech_json(record: SpeechRecord) -> Seq<char> {
    object_text(speech_members(record))
}

/// The string token of `text`, or the error of the synthesis pipeline in
/// place of the serialiser's.
fn token_of(text: &str) -> (r: Result<String, TtsError>)
    ensures
        r is Ok,
        r->Ok_0@ == json_string_token(text@),
{
    match string_token(text) {
        Ok(token) => Ok(token),
        Err(error) => Err(TtsError::SerializationError(error_text(&error))),
    }
}

impl SpeechRequestJson {
    /// Writes the record as JSON text.
    pub fn to_json_string(&self) -> (r: Result<String, TtsError>)
        ensures
            r is Ok,
            r->Ok_0@ == speech_json(self@),
    {
        let mut writer = ObjectWriter::new();
        let input = token_of(self.input.as_str())?;
        writer.member("input", input.as_str());
        let model = token_of(self.model.as_str())?;
        writer.member("model", model.as_str());
        let voice = token_of(self.voice.as_str())?;
        writer.member("voice", voice.as_str());
        let ghost mut expected = seq![
            Member { key: "input"@, token: json_string_token(self@.input) },
            Member { key: "model"@, token: json_string_token(self@.model) },
            Member { key: "voice"@, token: json_string_token(self@.voice) },
        ];
        assert(writer.members() =~= expected);
        if let Some(instructions) = &self.instructions {
            let token = token_of(instructions.as_str())?;
            writer.member("instructions", token.as_str());
        }
        proof {
            let next = expected + optional_member(
                "instructions"@,
                optional_token(self@.instructions),
            );
            assert(writer.members() =~= next);
            expected = next;
        }
        if let Some(format) = &self.response_format {
            let token = token_of(format.as_str())?;
            writer.member("response_format", token.as_str());
        }
        proof {
            let next = expected + optional_member(
                "response_format"@,
                optional_token(self@.response_format),
            );
            assert(writer.members() =~= next);
            expected = next;
        }
        if let Some(speed) = &self.speed {
            writer.member("speed", speed.text.as_str());
        }
        proof {
            let next = expected + optional_member("speed"@, speed_token(self@.speed));
            assert(writer.members() =~= next);
            expected = next;
        }
        Ok(writer.finish())
    }

    /// Writes the record as the bytes of its JSON text.
    pub fn to_json_vec(&self) -> (r: Result<Vec<u8>, TtsError>)
        ensures
            r is Ok,
            r->Ok_0@ == encode_utf8(speech_json(self@)),
    {
        let text = self.to_json_string()?;
        Ok(text.as_str().as_bytes_vec())
    }
}

/// What a successful synthesis call returns: the audio as it came, and the
/// format that it was asked for in.
#[derive(Debug, Clone)]
pub struct SpeechResponse {
    pub audio_data: Vec<u8>,
    pub format: AudioFormat,
}

/// Model of a [`SpeechResponse`].
pub struct Speech {
    pub audio_data: Seq<u8>,
    pub format: AudioFormat,
}

impl View for SpeechResponse {
    type V = Speech;

    open spec fn view(&self) -> Speech {
        Speech { audio_data: self.audio_data@, format: self.format }
    }
}

/// Model of the outcome of a synthesis call.
pub open spec fn speech_outcome(r: Result<SpeechResponse, TtsError>) -> Result<Speech, TtsFailure> {
    match r {
        Ok(response) => Ok(response@),
        Err(e) => Err(e@),
    }
}

} // verus!
