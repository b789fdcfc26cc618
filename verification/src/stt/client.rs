//! The transcription client: configuration, the request builder, and the
//! three steps of a call that need no transport: validating, encoding and
//! classifying the answer.

use vstd::prelude::*;
use vstd::string::StringExecFns;
use vstd::utf8::{decode_utf8, valid_utf8};
use crate::envelope::{
    envelope_of, failure_message, failure_message_of, is_success, is_success_status,
};
use crate::scalar::Scalar;
use crate::stt::error::{SttError, SttFailure};
use crate::stt::multipart::{
    FormPart, MultipartFormData, content_type_for, file_part, form_body, form_content_type,
    get_content_type_for_extension, is_boundary, text_part,
};
use crate::stt::types::{
    Model, ResponseFormat, Transcript, TranscriptionRequest, TranscriptionRequestView,
    TranscriptionResponse, empty_transcription_request, transcript_of, transcription_outcome,
};
use crate::transport::{
    ClientConfig, DEFAULT_TIMEOUT, Outbound, PreparedRequest, TransportError, TransportFailure,
    bearer, bearer_token, default_base_url, outbound_for, prepare_post, report_view,
    url_parse_result, with_header,
};

verus! {

/// Path of the transcription endpoint below the base URL.
pub open spec fn transcription_path() -> Seq<char> {
    "/v1/audio/transcriptions"@
}

/// What is wrong with a request before anything is encoded: an empty file
/// first, then an empty API key.
pub open spec fn transcription_fault(
    config: ClientConfig,
    request: TranscriptionRequestView,
) -> Option<SttFailure> {
    if request.file.len() == 0 {
        Some(SttFailure::MissingFile)
    } else if config.api_key.len() == 0 {
        Some(SttFailure::MissingApiKey)
    } else {
        None
    }
}

/// The text part for a field that may be unset: one part, or none.
pub open spec fn optional_part(name: Seq<char>, value: Option<Seq<char>>) -> Seq<FormPart> {
    match value {
        Some(v) => seq![text_part(name, v)],
        None => Seq::empty(),
    }
}

/// The parts of a transcription request, in their fixed order: the file,
/// the model, then language, prompt, response format and temperature as
/// far as they are set.
pub open spec fn transcription_parts(request: TranscriptionRequestView) -> Seq<FormPart> {
    seq![
        file_part("file"@, request.file_name, content_type_for(request.file_name), request.file),
        text_part("model"@, request.model.wire_name()),
    ] + optional_part("language"@, request.language) + optional_part("prompt"@, request.prompt)
        + optional_part(
        "response_format"@,
        match request.response_format {
            Some(format) => Some(format.wire_name()),
            None => None,
        },
    ) + optional_part(
        "temperature"@,
        match request.temperature {
            Some(t) => Some(t.text),
            None => None,
        },
    )
}

/// The headers of a transcription call.
pub open spec fn transcription_headers(config: ClientConfig, boundary: Seq<char>) -> Seq<
    (Seq<char>, Seq<char>),
> {
    seq![
        ("Authorization"@, bearer(config.api_key)),
        ("Content-Type"@, form_content_type(boundary)),
    ]
}

/// The call for a request whose form already holds `parts` under
/// `boundary`, the request's own parts following them.
pub open spec fn transcription_call_with(
    config: ClientConfig,
    request: TranscriptionRequestView,
    boundary: Seq<char>,
    parts: Seq<FormPart>,
) -> Result<Outbound, SttFailure> {
    match transcription_fault(config, request) {
        Some(fault) => Err(fault),
        None => match outbound_for(
            url_parse_result(config.base_url + transcription_path()),
            transcription_headers(config, boundary),
            config.timeout,
            form_body(boundary, parts + transcription_parts(request)),
        ) {
            Ok(outbound) => Ok(outbound),
            Err(failure) => Err(SttFailure::HttpClient(failure)),
        },
    }
}

/// The call for a request, encoded under `boundary`.
pub open spec fn transcription_call(
    config: ClientConfig,
    request: TranscriptionRequestView,
    boundary: Seq<char>,
) -> Result<Outbound, SttFailure> {
    transcription_call_with(config, request, boundary, Seq::empty())
}

/// Model of a prepared call or the error in its place.
pub open spec fn prepared(r: Result<PreparedRequest, SttError>) -> Result<Outbound, SttFailure> {
    match r {
        Ok(request) => Ok(request@),
        Err(e) => Err(e@),
    }
}

/// What an answer with this status and body means: on a success status the
/// record that the body decodes to, or `ParseError`; on any other status
/// `ApiError` with the status and the failure message of the body.
pub open spec fn transcription_result(status: u16, body: Seq<u8>) -> Result<
    Transcript,
    SttFailure,
> {
    if is_success_status(status) {
        transcript_of(body)
    } else {
        Err(SttFailure::ApiError { status, message: failure_message_of(body) })
    }
}

/// What the transport's report means: a failure of the transport is
/// wrapped as it is, an answer is classified.
pub open spec fn transcription_report(
    report: Result<(u16, Seq<u8>), TransportFailure>,
) -> Result<Transcript, SttFailure> {
    match report {
        Ok((status, body)) => transcription_result(status, body),
        Err(failure) => Err(SttFailure::HttpClient(failure)),
    }
}

/// A client for the transcription endpoint. Its configuration does not
/// change once it is made.
pub struct TranscriptionClient {
    api_key: String,
    base_url: String,
    timeout: u64,
}

impl View for TranscriptionClient {
    type V = ClientConfig;

    closed spec fn view(&self) -> ClientConfig {
        ClientConfig { api_key: self.api_key@, base_url: self.base_url@, timeout: self.timeout }
    }
}

impl TranscriptionClient {
    /// A client with the default base URL and timeout.
    pub fn new(api_key: &str) -> (r: Self)
        ensures
            r@ == (ClientConfig {
                api_key: api_key@,
                base_url: default_base_url(),
                timeout: DEFAULT_TIMEOUT,
            }),
    {
        TranscriptionClient {
            api_key: String::from_str(api_key),
            base_url: String::from_str("https://api.openai.com"),
            timeout: DEFAULT_TIMEOUT,
        }
    }

    /// The same client with another base URL.
    pub fn with_base_url(self, base_url: &str) -> (r: Self)
        ensures
            r@ == (ClientConfig { base_url: base_url@, ..self@ }),
    {
        let mut client = self;
        client.base_url = String::from_str(base_url);
        client
    }

    /// The same client with another timeout, in milliseconds.
    pub fn with_timeout(self, timeout: u64) -> (r: Self)
        ensures
            r@ == (ClientConfig { timeout, ..self@ }),
    {
        let mut client = self;
        client.timeout = timeout;
        client
    }

    /// A builder over this client, starting from the empty request.
    pub fn transcribe(&self) -> (r: TranscriptionRequestBuilder<'_>)
        ensures
            r.client() == self@,
            r.request() == empty_transcription_request(),
    {
        TranscriptionRequestBuilder { client: self, request: TranscriptionRequest::default() }
    }

    /// Checks a request before anything is encoded.
    pub fn validate(&self, request: &TranscriptionRequest) -> (r: Result<(), SttError>)
        ensures
            match r {
                Ok(_) => transcription_fault(self@, request@) is None,
                Err(e) => transcription_fault(self@, request@) == Some(e@),
            },
    {
        if request.file.len() == 0 {
            return Err(SttError::MissingFile);
        }
        if self.api_key.as_str().is_empty() {
            return Err(SttError::MissingApiKey);
        }
        Ok(())
    }

    /// Adds the parts of a request to a form.
    fn fill(form: &mut MultipartFormData, request: TranscriptionRequest)
        ensures
            final(form).boundary_text() == old(form).boundary_text(),
            final(form).parts() == old(form).parts() + transcription_parts(request@),
    {
        let ghost start = form.parts();
        let content_type = get_content_type_for_extension(request.file_name.as_str());
        form.add_file("file", request.file_name.as_str(), content_type, request.file);
        form.add_text("model", request.model.as_str());
        let ghost mut expected = seq![
            file_part(
                "file"@,
                request@.file_name,
                content_type_for(request@.file_name),
                request@.file,
            ),
            text_part("model"@, request@.model.wire_name()),
        ];
        assert(form.parts() =~= start + expected);
        if let Some(language) = request.language {
            form.add_text("language", language.as_str());
        }
        proof {
            let next = expected + optional_part("language"@, request@.language);
            assert(form.parts() =~= start + next);
            expected = next;
        }
        if let Some(prompt) = request.prompt {
            form.add_text("prompt", prompt.as_str());
        }
        proof {
            let next = expected + optional_part("prompt"@, request@.prompt);
            assert(form.parts() =~= start + next);
            expected = next;
        }
        if let Some(format) = request.response_format {
            form.add_text("response_format", format.as_str());
        }
        proof {
            let next = expected + optional_part(
                "response_format"@,
                match request@.response_format {
                    Some(format) => Some(format.wire_name()),
                    None => None,
                },
            );
            assert(form.parts() =~= start + next);
            expected = next;
        }
        if let Some(temperature) = request.temperature {
            form.add_text("temperature", temperature.text.as_str());
        }
        proof {
            let next = expected + optional_part(
                "temperature"@,
                match request@.temperature {
                    Some(t) => Some(t.text),
                    None => None,
                },
            );
            assert(form.parts() =~= start + next);
            expected = next;
        }
    }

    /// Encodes a checked request into `form` and addresses it.
    fn assemble(&self, request: TranscriptionRequest, form: MultipartFormData) -> (r: Result<
        PreparedRequest,
        SttError,
    >)
        requires
            transcription_fault(self@, request@) is None,
        ensures
            prepared(r) == transcription_call_with(
                self@,
                request@,
                form.boundary_text(),
                form.parts(),
            ),
    {
        let mut form = form;
        TranscriptionClient::fill(&mut form, request);
        let (body, content_type) = form.build();
        let headers = with_header(
            Vec::new(),
            "Authorization",
            bearer_token(self.api_key.as_str()),
        );
        let headers = with_header(headers, "Content-Type", content_type);
        assert(headers.deep_view() =~= transcription_headers(self@, form.boundary_text()));
        match prepare_post(
            self.base_url.as_str(),
            "/v1/audio/transcriptions",
            headers,
            self.timeout,
            body,
        ) {
            Ok(prepared) => Ok(prepared),
            Err(e) => Err(SttError::HttpClient(e)),
        }
    }

    /// Prepares the call for a request with a form that the caller made:
    /// the request is checked, its parts are added to the form's, and the
    /// body is encoded under the form's boundary.
    pub fn prepare_with(&self, request: TranscriptionRequest, form: MultipartFormData) -> (r:
        Result<PreparedRequest, SttError>)
        ensures
            prepared(r) == transcription_call_with(
                self@,
                request@,
                form.boundary_text(),
                form.parts(),
            ),
    {
        match self.validate(&request) {
            Ok(_) => self.assemble(request, form),
            Err(e) => Err(e),
        }
    }

    /// Prepares the call for a request: checks it, draws a boundary and
    /// encodes the form. Which boundary is drawn is not determined; the
    /// outcome is the call under some boundary.
    pub fn prepare(&self, request: TranscriptionRequest) -> (r: Result<PreparedRequest, SttError>)
        ensures
            exists|boundary: Seq<char>|
                is_boundary(boundary) && prepared(r) == #[trigger] transcription_call(
                    self@,
                    request@,
                    boundary,
                ),
    {
        match self.validate(&request) {
            Ok(_) => {
                let form = MultipartFormData::new();
                let r = self.assemble(request, form);
                assert(form.parts() + transcription_parts(request@) =~= Seq::<FormPart>::empty()
                    + transcription_parts(request@));
                assert(prepared(r) == transcription_call(self@, request@, form.boundary_text()));
                r
            },
            Err(e) => {
                let ghost any = crate::stt::multipart::boundary_of(Seq::new(16, |i: int| 0u8));
                assert(is_boundary(any)) by {
                    lemma_zero_boundary();
                }
                assert(prepared(Err::<PreparedRequest, SttError>(e)) == transcription_call(
                    self@,
                    request@,
                    any,
                ));
                Err(e)
            },
        }
    }

    /// Turns the transport's report on a call into the call's outcome.
    pub fn receive(report: Result<(u16, Vec<u8>), TransportError>) -> (r: Result<
        TranscriptionResponse,
        SttError,
    >)
        ensures
            transcription_outcome(r) == transcription_report(report_view(report)),
    {
        match report {
            Ok((status, body)) => TranscriptionClient::classify(status, body.as_slice()),
            Err(e) => Err(SttError::HttpClient(e)),
        }
    }

    /// Classifies the answer to a call. A failed call whose body holds no
    /// error envelope and is well-formed UTF-8 has the body's text as its
    /// message.
    pub fn classify(status: u16, body: &[u8]) -> (r: Result<TranscriptionResponse, SttError>)
        ensures
            transcription_outcome(r) == transcription_result(status, body@),
            !is_success_status(status) && envelope_of(body@) is None && valid_utf8(body@)
                ==> transcription_outcome(r) == Err::<Transcript, SttFailure>(
                SttFailure::ApiError { status, message: decode_utf8(body@) },
            ),
    {
        if is_success(status) {
            TranscriptionResponse::from_json(body)
        } else {
            Err(SttError::ApiError { status, message: failure_message(body) })
        }
    }
}

/// The tag followed by sixteen times the first symbol is a boundary.
proof fn lemma_zero_boundary()
    ensures
        is_boundary(crate::stt::multipart::boundary_of(Seq::new(16, |i: int| 0u8))),
{
    reveal_strlit("----WebKitFormBoundary");
    let b = crate::stt::multipart::boundary_of(Seq::new(16, |i: int| 0u8));
    assert(b.subrange(0, 22) =~= crate::stt::multipart::boundary_tag());
}

/// A transcription request under construction. Nothing is checked while
/// it is built; every state of the builder is legal.
pub struct TranscriptionRequestBuilder<'a> {
    client: &'a TranscriptionClient,
    request: TranscriptionRequest,
}

impl<'a> TranscriptionRequestBuilder<'a> {
    /// The configuration of the client that the builder belongs to.
    pub closed spec fn client(&self) -> ClientConfig {
        self.client@
    }

    /// The request as built so far.
    pub closed spec fn request(&self) -> TranscriptionRequestView {
        self.request@
    }

    /// Sets the audio and the name of the file it came from.
    pub fn file(self, data: Vec<u8>, name: &str) -> (r: Self)
        ensures
            r.client() == self.client(),
            r.request() == (TranscriptionRequestView {
                file: data@,
                file_name: name@,
                ..self.request()
            }),
    {
        let mut builder = self;
        builder.request.file = data;
        builder.request.file_name = String::from_str(name);
        builder
    }

    /// Sets the model.
    pub fn model(self, model: Model) -> (r: Self)
        ensures
            r.client() == self.client(),
            r.request() == (TranscriptionRequestView { model, ..self.request() }),
    {
        let mut builder = self;
        builder.request.model = model;
        builder
    }

    /// Sets the language of the audio.
    pub fn language(self, language: &str) -> (r: Self)
        ensures
            r.client() == self.client(),
            r.request() == (TranscriptionRequestView {
                language: Some(language@),
                ..self.request()
            }),
    {
        let mut builder = self;
        builder.request.language = Some(String::from_str(language));
        builder
    }

    /// Sets the prompt that guides the transcription.
    pub fn prompt(self, prompt: &str) -> (r: Self)
        ensures
            r.client() == self.client(),
            r.request() == (TranscriptionRequestView { prompt: Some(prompt@), ..self.request() }),
    {
        let mut builder = self;
        builder.request.prompt = Some(String::from_str(prompt));
        builder
    }

    /// Sets the layout of the answer.
    pub fn response_format(self, format: ResponseFormat) -> (r: Self)
        ensures
            r.client() == self.client(),
            r.request() == (TranscriptionRequestView {
                response_format: Some(format),
                ..self.request()
            }),
    {
        let mut builder = self;
        builder.request.response_format = Some(format);
        builder
    }

    /// Sets the sampling temperature.
    pub fn temperature(self, temperature: Scalar) -> (r: Self)
        ensures
            r.client() == self.client(),
            r.request() == (TranscriptionRequestView {
                temperature: Some(temperature@),
                ..self.request()
            }),
    {
        let mut builder = self;
        builder.request.temperature = Some(temperature);
        builder
    }

    /// Ends the building: checks the request and encodes the call. The
    /// builder is used up.
    pub fn prepare(self) -> (r: Result<PreparedRequest, SttError>)
        ensures
            exists|boundary: Seq<char>|
                is_boundary(boundary) && prepared(r) == #[trigger] transcription_call(
                    self.client(),
                    self.request(),
                    boundary,
                ),
    {
        let r = self.client.prepare(self.request);
        proof {
            let boundary = choose|boundary: Seq<char>|
                is_boundary(boundary) && prepared(r) == #[trigger] transcription_call(
                    self.client@,
                    self.request@,
                    boundary,
                );
            assert(prepared(r) == transcription_call(self.client(), self.request(), boundary));
        }
        r
    }
}

} // verus!
