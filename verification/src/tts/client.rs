//! The synthesis client: configuration, the request builder, and the three
//! steps of a call that need no transport: validating, encoding and
//! classifying the answer.

use vstd::prelude::*;
use vstd::string::{StrSliceExecFns, StringExecFns};
use vstd::utf8::{decode_utf8, encode_utf8, valid_utf8};
use crate::envelope::{
    envelope_of, failure_message, failure_message_of, is_success, is_success_status,
};
use crate::scalar::{Scalar, within_patterns};
use crate::transport::{
    ClientConfig, DEFAULT_TIMEOUT, Outbound, PreparedRequest, TransportError, TransportFailure,
    bearer, bearer_token, default_base_url, outbound_for, prepare_post, report_view,
    url_parse_result, with_header,
};
use crate::tts::error::{TtsError, TtsFailure};
use crate::tts::types::{
    AudioFormat, Speech, SpeechRequest, SpeechRequestJson, SpeechRequestView, SpeechResponse,
    TtsModel, Voice, empty_speech_request, speech_json, speech_outcome, speech_record,
};

verus! {

/// Most characters that an input may have.
pub const MAX_INPUT_LENGTH: usize = 4096;

/// Pattern of the slowest speed that the endpoint takes, `0.25`.
pub const MIN_SPEED_BITS: u32 = 0x3E80_0000;

/// Pattern of the fastest speed that the endpoint takes, `4.0`.
pub const MAX_SPEED_BITS: u32 = 0x4080_0000;

/// Path of the synthesis endpoint below the base URL.
pub open spec fn speech_path() -> Seq<char> {
    "/v1/audio/speech"@
}

/// Whether a speed with pattern `bits` is one that the endpoint takes: a
/// number from 0.25 to 4.0, both included.
pub open spec fn speed_in_range(bits: u32) -> bool {
    within_patterns(bits, MIN_SPEED_BITS, MAX_SPEED_BITS)
}

/// What is wrong with a request before anything is encoded. The rules are
/// tried in this order and the first one broken decides: no input; more
/// than 4096 characters of input; a speed outside the range; an empty API
/// key. Characters are Unicode scalar values.
pub open spec fn speech_fault(config: ClientConfig, request: SpeechRequestView) -> Option<
    TtsFailure,
> {
    if request.input.len() == 0 {
        Some(TtsFailure::MissingInput)
    } else if request.input.len() > MAX_INPUT_LENGTH {
        Some(TtsFailure::InputTooLong(request.input.len()))
    } else if request.speed is Some && !speed_in_range(request.speed->0.bits) {
        Some(TtsFailure::InvalidSpeed(request.speed->0))
    } else if config.api_key.len() == 0 {
        Some(TtsFailure::MissingApiKey)
    } else {
        None
    }
}

/// The headers of a synthesis call.
pub open spec fn speech_headers(config: ClientConfig) -> Seq<(Seq<char>, Seq<char>)> {
    seq![("Authorization"@, bearer(config.api_key)), ("Content-Type"@, "application/json"@)]
}

/// The call for a request: the fault that validation finds, else the
/// request addressed to the endpoint with its wire record as the body.
pub open spec fn speech_call(config: ClientConfig, request: SpeechRequestView) -> Result<
    Outbound,
    TtsFailure,
> {
    match speech_fault(config, request) {
        Some(fault) => Err(fault),
        None => match outbound_for(
            url_parse_result(config.base_url + speech_path()),
            speech_headers(config),
            config.timeout,
            encode_utf8(speech_json(speech_record(request))),
        ) {
            Ok(outbound) => Ok(outbound),
            Err(failure) => Err(TtsFailure::HttpClient(failure)),
        },
    }
}

/// Model of a prepared call or the error in its place.
pub open spec fn prepared(r: Result<PreparedRequest, TtsError>) -> Result<Outbound, TtsFailure> {
    match r {
        Ok(request) => Ok(request@),
        Err(e) => Err(e@),
    }
}

/// The format of the audio that a call returns: the one asked for, or the
/// endpoint's default.
pub open spec fn format_of(requested: Option<AudioFormat>) -> AudioFormat {
    match requested {
        Some(format) => format,
        None => AudioFormat::Mp3,
    }
}

/// What an answer with this status and body means: on a success status the
/// body is the audio, in the format that was asked for; on any other status
/// `ApiError` with the status and the failure message of the body.
pub open spec fn speech_result(status: u16, body: Seq<u8>, requested: Option<AudioFormat>) -> Result<
    Speech,
    TtsFailure,
> {
    if is_success_status(status) {
        Ok(Speech { audio_data: body, format: format_of(requested) })
    } else {
        Err(TtsFailure::ApiError { status, message: failure_message_of(body) })
    }
}

/// What the transport's report means: a failure of the transport is
/// wrapped as it is, an answer is classified.
pub open spec fn speech_report(
    report: Result<(u16, Seq<u8>), TransportFailure>,
    requested: Option<AudioFormat>,
) -> Result<Speech, TtsFailure> {
    match report {
        Ok((status, body)) => speech_result(status, body, requested),
        Err(failure) => Err(TtsFailure::HttpClient(failure)),
    }
}

/// A client for the synthesis endpoint. Its configuration does not change
/// once it is made.
pub struct SpeechClient {
    api_key: String,
    base_url: String,
    timeout: u64,
}

impl View for SpeechClient {
    type V = ClientConfig;

    closed spec fn view(&self) -> ClientConfig {
        ClientConfig { api_key: self.api_key@, base_url: self.base_url@, timeout: self.timeout }
    }
}

impl SpeechClient {
    /// A client with the default base URL and timeout.
    pub fn new(api_key: &str) -> (r: Self)
        ensures
            r@ == (ClientConfig {
                api_key: api_key@,
                base_url: default_base_url(),
                timeout: DEFAULT_TIMEOUT,
            }),
    {
        SpeechClient {
            api_key: String::from_str(api_key),
            base_url: String::from_str("https://api.openai.com"),
            timeout: DEFAULT_TIMEOUT,
        }
    }

    /// The same client with another base URL.
    pub fn with_base_url(self, base_url: &str) -> (r: Self)
        ensures
            r@ == (ClientConfig { base_url: base_url@, ..self@ }),
    {
        let mut client = self;
        client.base_url = String::from_str(base_url);
        client
    }

    /// The same client with another timeout, in milliseconds.
    pub fn with_timeout(self, timeout: u64) -> (r: Self)
        ensures
            r@ == (ClientConfig { timeout, ..self@ }),
    {
        let mut client = self;
        client.timeout = timeout;
        client
    }

    /// A builder over this client, starting from the empty request.
    pub fn synthesize(&self) -> (r: SpeechRequestBuilder<'_>)
        ensures
            r.client() == self@,
            r.request() == empty_speech_request(),
    {
        SpeechRequestBuilder { client: self, request: SpeechRequest::default() }
    }

    /// Checks a request before anything is encoded.
    pub fn validate(&self, request: &SpeechRequest) -> (r: Result<(), TtsError>)
        ensures
            match r {
                Ok(_) => speech_fault(self@, request@) is None,
                Err(e) => speech_fault(self@, request@) == Some(e@),
            },
    {
        let length = request.input.as_str().unicode_len();
        if length == 0 {
            return Err(TtsError::MissingInput);
        }
        if length > MAX_INPUT_LENGTH {
            return Err(TtsError::InputTooLong(length));
        }
        if let Some(speed) = &request.speed {
            if !speed.is_within(MIN_SPEED_BITS, MAX_SPEED_BITS) {
                return Err(TtsError::InvalidSpeed(speed.clone()));
            }
        }
        if self.api_key.as_str().is_empty() {
            return Err(TtsError::MissingApiKey);
        }
        Ok(())
    }

    /// Prepares the call for a request: checks it, writes its wire record
    /// as JSON and addresses it.
    pub fn prepare(&self, request: SpeechRequest) -> (r: Result<PreparedRequest, TtsError>)
        ensures
            prepared(r) == speech_call(self@, request@),
    {
        self.validate(&request)?;
        let record = SpeechRequestJson::from(request);
        let body = record.to_json_vec()?;
        let headers = with_header(
            Vec::new(),
            "Authorization",
            bearer_token(self.api_key.as_str()),
        );
        let headers = with_header(headers, "Content-Type", String::from_str("application/json"));
        assert(headers.deep_view() =~= speech_headers(self@));
        match prepare_post(self.base_url.as_str(), "/v1/audio/speech", headers, self.timeout, body) {
            Ok(prepared) => Ok(prepared),
            Err(e) => Err(TtsError::HttpClient(e)),
        }
    }

    /// Turns the transport's report on a call that asked for the format
    /// `requested` into the call's outcome.
    pub fn receive(
        report: Result<(u16, Vec<u8>), TransportError>,
        requested: Option<AudioFormat>,
    ) -> (r: Result<SpeechResponse, TtsError>)
        ensures
            speech_outcome(r) == speech_report(report_view(report), requested),
    {
        match report {
            Ok((status, body)) => SpeechClient::classify(status, body, requested),
            Err(e) => Err(TtsError::HttpClient(e)),
        }
    }

    /// Classifies the answer to a call that asked for the format
    /// `requested`. A failed call whose body holds no error envelope and is
    /// well-formed UTF-8 has the body's text as its message.
    pub fn classify(status: u16, body: Vec<u8>, requested: Option<AudioFormat>) -> (r: Result<
        SpeechResponse,
        TtsError,
    >)
        ensures
            speech_outcome(r) == speech_result(status, body@, requested),
            !is_success_status(status) && envelope_of(body@) is None && valid_utf8(body@)
                ==> speech_outcome(r) == Err::<Speech, TtsFailure>(
                TtsFailure::ApiError { status, message: decode_utf8(body@) },
            ),
    {
        if is_success(status) {
            let format = match requested {
                Some(format) => format,
                None => AudioFormat::Mp3,
            };
            Ok(SpeechResponse { audio_data: body, format })
        } else {
            Err(TtsError::ApiError { status, message: failure_message(body.as_slice()) })
        }
    }
}

/// A synthesis request under construction. Nothing is checked while it is
/// built; every state of the builder is legal.
pub struct SpeechRequestBuilder<'a> {
    client: &'a SpeechClient,
    request: SpeechRequest,
}

impl<'a> SpeechRequestBuilder<'a> {
    /// The configuration of the client that the builder belongs to.
    pub closed spec fn client(&self) -> ClientConfig {
        self.client@
    }

    /// The request as built so far.
    pub closed spec fn request(&self) -> SpeechRequestView {
        self.request@
    }

    /// Sets the text to speak.
    pub fn input(self, text: &str) -> (r: Self)
        ensures
            r.client() == self.client(),
            r.request() == (SpeechRequestView { input: text@, ..self.request() }),
    {
        let mut builder = self;
        builder.request.input = String::from_str(text);
        builder
    }

    /// Sets the model.
    pub fn model(self, model: TtsModel) -> (r: Self)
        ensures
            r.client() == self.client(),
            r.request() == (SpeechRequestView { model, ..self.request() }),
    {
        let mut builder = self;
        builder.request.model = model;
        builder
    }

    /// Sets the voice.
    pub fn voice(self, voice: Voice) -> (r: Self)
        ensures
            r.client() == self.client(),
            r.request() == (SpeechRequestView { voice, ..self.request() }),
    {
        let mut builder = self;
        builder.request.voice = voice;
        builder
    }

    /// Sets the instructions on how to speak.
    pub fn instructions(self, instructions: &str) -> (r: Self)
        ensures
            r.client() == self.client(),
            r.request() == (SpeechRequestView {
                instructions: Some(instructions@),
                ..self.request()
            }),
    {
        let mut builder = self;
        builder.request.instructions = Some(String::from_str(instructions));
        builder
    }

    /// Sets the format of the audio.
    pub fn response_format(self, format: AudioFormat) -> (r: Self)
        ensures
            r.client() == self.client(),
            r.request() == (SpeechRequestView { response_format: Some(format), ..self.request() }),
    {
        let mut builder = self;
        builder.request.response_format = Some(format);
        builder
    }

    /// Sets the speed.
    pub fn speed(self, speed: Scalar) -> (r: Self)
        ensures
            r.client() == self.client(),
            r.request() == (SpeechRequestView { speed: Some(speed@), ..self.request() }),
    {
        let mut builder = self;
        builder.request.speed = Some(speed);
        builder
    }

    /// Ends the building: checks the request and encodes the call. The
    /// builder is used up. Beside the call stands the format that was asked
    /// for, which the classifier of the answer needs.
    pub fn prepare(self) -> (r: (Result<PreparedRequest, TtsError>, Option<AudioFormat>))
        ensures
            prepared(r.0) == speech_call(self.client(), self.request()),
            r.1 == self.request().response_format,
    {
        let requested = self.request.response_format;
        (self.client.prepare(self.request), requested)
    }
}

} // verus!
