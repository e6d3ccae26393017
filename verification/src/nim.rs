//! The NVIDIA NIM speech services: which HTTP request a call becomes, and
//! what the service's reply means. Sending the request is left to the caller.

use crate::backend::{audio_outcome, text_outcome, Failure};
use crate::encoding::{
    base64_bytes, base64_text, decode, encodable, encode, longest_encodable,
};
use crate::json::{Json, JsonView};
use crate::text::{begins_with, contains, occurs_in, optional_text, same_text};
use vstd::prelude::*;
use vstd::string::StringExecFns;

verus! {

/// A file sent as one part of a form.
#[derive(Debug, PartialEq, Eq)]
pub struct Upload {
    /// The name of the form field.
    pub field: String,
    pub file_name: String,
    pub mime: String,
    pub content: Vec<u8>,
}

/// What a request carries.
#[derive(Debug, PartialEq, Eq)]
pub enum Body {
    /// A JSON object whose members are all strings.
    Json(Vec<(String, String)>),
    /// A multipart form: one file and some text fields.
    Form { file: Upload, fields: Vec<(String, String)> },
}

/// An HTTP POST that the caller is to send.
#[derive(Debug, PartialEq, Eq)]
pub struct Request {
    pub url: String,
    /// The value of the `Authorization` header, where one is sent.
    pub authorization: Option<String>,
    pub body: Body,
}

/// What came of sending a request.
#[derive(Debug, PartialEq, Eq)]
pub enum Reply {
    /// The exchange broke down, or the body was not JSON; the words say how.
    Failed(String),
    /// The service answered with a status other than success; the text of
    /// its answer, where it could be read.
    Rejected(Option<String>),
    /// The service answered with this document.
    Answered(Json),
}

/// Which of the two transcription interfaces a URL leads to.
#[derive(Debug, Clone, Copy, PartialEq, Eq, Structural)]
pub enum AsrRoute {
    /// The hosted API, which takes JSON.
    Hosted,
    /// A local container, which takes a multipart form.
    Local,
}

/// An upload as mathematics.
pub struct UploadView {
    pub field: Seq<char>,
    pub file_name: Seq<char>,
    pub mime: Seq<char>,
    pub content: Seq<u8>,
}

/// A body as mathematics.
pub enum BodyView {
    Json(Seq<(Seq<char>, Seq<char>)>),
    Form { file: UploadView, fields: Seq<(Seq<char>, Seq<char>)> },
}

/// A request as mathematics.
pub struct RequestView {
    pub url: Seq<char>,
    pub authorization: Option<Seq<char>>,
    pub body: BodyView,
}

/// The characters of each name and value.
pub open spec fn pairs_view(pairs: Seq<(String, String)>) -> Seq<(Seq<char>, Seq<char>)> {
    pairs.map_values(|pair: (String, String)| (pair.0@, pair.1@))
}

impl View for Upload {
    type V = UploadView;

    open spec fn view(&self) -> UploadView {
        UploadView {
            field: self.field@,
            file_name: self.file_name@,
            mime: self.mime@,
            content: self.content@,
        }
    }
}

impl View for Body {
    type V = BodyView;

    open spec fn view(&self) -> BodyView {
        match self {
            Body::Json(members) => BodyView::Json(pairs_view(members@)),
            Body::Form { file, fields } => BodyView::Form {
                file: file@,
                fields: pairs_view(fields@),
            },
        }
    }
}

impl View for Request {
    type V = RequestView;

    open spec fn view(&self) -> RequestView {
        RequestView {
            url: self.url@,
            authorization: optional_text(self.authorization),
            body: self.body@,
        }
    }
}

/// The locale that the backend knows a client's language code by. Codes
/// that it does not know fall back to American English.
pub open spec fn locale_of(language: Seq<char>) -> Seq<char> {
    if language == "zh"@ {
        "zh-CN"@
    } else if language == "ru"@ {
        "ru-RU"@
    } else {
        "en-US"@
    }
}

/// Maps a client's language code to the backend's locale.
pub fn locale_code(language: &str) -> (locale: &'static str)
    ensures
        locale@ == locale_of(language@),
{
    if same_text(language, "zh") {
        "zh-CN"
    } else if same_text(language, "ru") {
        "ru-RU"
    } else {
        "en-US"
    }
}

/// The `Authorization` header that carries an API key.
pub open spec fn bearer(api_key: Seq<char>) -> Seq<char> {
    "Bearer "@ + api_key
}

/// The transcription endpoint used where none is configured.
pub open spec fn default_asr_url() -> Seq<char> {
    "https://ai.api.nvidia.com/v1/genai/nvidia/riva-asr-canary-1b"@
}

/// The host whose name in a URL marks the hosted API.
pub open spec fn hosted_marker() -> Seq<char> {
    "ai.api.nvidia.com"@
}

/// What a hosted function's name is appended to.
pub open spec fn hosted_root() -> Seq<char> {
    "https://ai.api.nvidia.com/v1/genai/nvidia/"@
}

/// The transcription endpoint of a local container.
pub open spec fn local_asr_url() -> Seq<char> {
    "http://nim-asr:9000/v1/audio/transcriptions"@
}

/// The synthesis endpoint used where none is configured.
pub open spec fn default_tts_url() -> Seq<char> {
    "http://localhost:9000/v1/tts/synthesize"@
}

/// The base URL of the function API, used where none is configured.
pub open spec fn default_base_url() -> Seq<char> {
    "https://api.nvcf.nvidia.com/v2/nvcf/pexec/functions"@
}

/// The configured value, or the default where none is configured.
pub open spec fn configured_or(configured: Option<Seq<char>>, default: Seq<char>) -> Seq<char> {
    match configured {
        Some(value) => value,
        None => default,
    }
}

/// The interface that a transcription endpoint speaks.
pub open spec fn asr_route(endpoint: Seq<char>) -> AsrRoute {
    if occurs_in(hosted_marker(), endpoint) {
        AsrRoute::Hosted
    } else {
        AsrRoute::Local
    }
}

/// The URL that a transcription is posted to. An endpoint that is no URL
/// names a hosted function, or else stands for the local container.
pub open spec fn asr_url(endpoint: Seq<char>) -> Seq<char> {
    if "http"@.is_prefix_of(endpoint) {
        endpoint
    } else {
        match asr_route(endpoint) {
            AsrRoute::Hosted => hosted_root() + endpoint,
            AsrRoute::Local => local_asr_url(),
        }
    }
}

/// Whether a transcription for the configured endpoint sends its audio as
/// base64 text, which bounds the length of the audio.
pub open spec fn needs_encoding(configured: Option<Seq<char>>) -> bool {
    asr_route(configured_or(configured, default_asr_url())) is Hosted
}

/// The request that asks the hosted API for a transcript.
pub open spec fn hosted_request_view(
    url: Seq<char>,
    api_key: Seq<char>,
    encoded_audio: Seq<char>,
    locale: Seq<char>,
) -> RequestView {
    RequestView {
        url,
        authorization: Some(bearer(api_key)),
        body: BodyView::Json(seq![("audio_data"@, encoded_audio), ("language_code"@, locale)]),
    }
}

/// The request that asks a local container for a transcript.
pub open spec fn local_request_view(url: Seq<char>, audio: Seq<u8>, locale: Seq<char>) -> RequestView {
    RequestView {
        url,
        authorization: None,
        body: BodyView::Form {
            file: UploadView {
                field: "file"@,
                file_name: "audio.wav"@,
                mime: "audio/wav"@,
                content: audio,
            },
            fields: seq![
                ("model"@, "canary-1b"@),
                ("language"@, locale),
                ("response_format"@, "json"@),
            ],
        },
    }
}

/// The request that a transcription becomes, with the interface it goes to.
pub open spec fn transcription_request_view(
    api_key: Seq<char>,
    audio: Seq<u8>,
    language: Seq<char>,
    configured: Option<Seq<char>>,
) -> (AsrRoute, RequestView) {
    let endpoint = configured_or(configured, default_asr_url());
    match asr_route(endpoint) {
        AsrRoute::Hosted => (
            AsrRoute::Hosted,
            hosted_request_view(asr_url(endpoint), api_key, base64_text(audio), locale_of(language)),
        ),
        AsrRoute::Local => (
            AsrRoute::Local,
            local_request_view(asr_url(endpoint), audio, locale_of(language)),
        ),
    }
}

/// The request that a synthesis becomes.
pub open spec fn synthesis_request_view(
    api_key: Seq<char>,
    text: Seq<char>,
    configured: Option<Seq<char>>,
) -> RequestView {
    RequestView {
        url: configured_or(configured, default_tts_url()),
        authorization: Some(bearer(api_key)),
        body: BodyView::Json(seq![("text"@, text), ("speaker"@, "English-US.Female-1"@)]),
    }
}

/// A name with its value.
fn pair(name: &str, value: &str) -> (pair: (String, String))
    ensures
        pair.0@ == name@,
        pair.1@ == value@,
{
    (name.to_owned(), value.to_owned())
}

/// The configured value, or the default where none is configured.
fn value_or(configured: Option<String>, default: &str) -> (value: String)
    ensures
        value@ == configured_or(
            optional_text(configured),
            default@,
        ),
{
    match configured {
        Some(value) => value,
        None => default.to_owned(),
    }
}

/// Builds the request that asks the hosted API for a transcript, from the
/// audio in its base64 text.
pub fn hosted_request(url: String, api_key: &str, encoded_audio: &str, locale: &str) -> (request:
    Request)
    ensures
        request@ == hosted_request_view(url@, api_key@, encoded_audio@, locale@),
{
    let mut members: Vec<(String, String)> = Vec::new();
    members.push(pair("audio_data", encoded_audio));
    members.push(pair("language_code", locale));
    assert(pairs_view(members@) =~= seq![
        ("audio_data"@, encoded_audio@),
        ("language_code"@, locale@),
    ]);
    Request {
        url,
        authorization: Some("Bearer ".to_owned().concat(api_key)),
        body: Body::Json(members),
    }
}

/// Builds the request that asks a local container for a transcript.
pub fn local_request(url: String, audio: Vec<u8>, locale: &str) -> (request: Request)
    ensures
        request@ == local_request_view(url@, audio@, locale@),
{
    let mut fields: Vec<(String, String)> = Vec::new();
    fields.push(pair("model", "canary-1b"));
    fields.push(pair("language", locale));
    fields.push(pair("response_format", "json"));
    assert(pairs_view(fields@) =~= seq![
        ("model"@, "canary-1b"@),
        ("language"@, locale@),
        ("response_format"@, "json"@),
    ]);
    Request {
        url,
        authorization: None,
        body: Body::Form {
            file: Upload {
                field: "file".to_owned(),
                file_name: "audio.wav".to_owned(),
                mime: "audio/wav".to_owned(),
                content: audio,
            },
            fields,
        },
    }
}

/// Decides which interface a transcription endpoint speaks.
pub fn route_of(endpoint: &str) -> (route: AsrRoute)
    ensures
        route == asr_route(endpoint@),
{
    if contains(endpoint, "ai.api.nvidia.com") {
        AsrRoute::Hosted
    } else {
        AsrRoute::Local
    }
}

/// The URL that a transcription for `endpoint` is posted to.
pub fn transcription_url(endpoint: String) -> (url: String)
    ensures
        url@ == asr_url(endpoint@),
{
    if begins_with(endpoint.as_str(), "http") {
        endpoint
    } else {
        match route_of(endpoint.as_str()) {
            AsrRoute::Hosted => "https://ai.api.nvidia.com/v1/genai/nvidia/".to_owned().concat(
                endpoint.as_str(),
            ),
            AsrRoute::Local => "http://nim-asr:9000/v1/audio/transcriptions".to_owned(),
        }
    }
}

/// The settings of the NIM services that do not change from call to call.
pub struct NimClient {
    base_url: String,
    api_key: String,
}

/// The settings as mathematics.
pub struct NimClientView {
    pub base_url: Seq<char>,
    pub api_key: Seq<char>,
}

impl View for NimClient {
    type V = NimClientView;

    closed spec fn view(&self) -> NimClientView {
        NimClientView { base_url: self.base_url@, api_key: self.api_key@ }
    }
}

impl NimClient {
    /// The settings for an API key and, where one is configured, a base URL.
    pub fn new(api_key: String, base_url: Option<String>) -> (client: NimClient)
        ensures
            client@.api_key == api_key@,
            client@.base_url == configured_or(
                optional_text(base_url),
                default_base_url(),
            ),
    {
        NimClient {
            base_url: value_or(base_url, "https://api.nvcf.nvidia.com/v2/nvcf/pexec/functions"),
            api_key,
        }
    }

    /// The base URL of the function API.
    pub fn base_url(&self) -> (url: &str)
        ensures
            url@ == self@.base_url,
    {
        self.base_url.as_str()
    }

    /// The key that authorizes calls.
    pub fn api_key(&self) -> (key: &str)
        ensures
            key@ == self@.api_key,
    {
        self.api_key.as_str()
    }

    /// Says which request transcribes `audio`, spoken in `language`, and
    /// which interface the request goes to. `configured_url` is the
    /// transcription endpoint that the environment names, if it names one.
    pub fn transcription_request(
        &self,
        audio: Vec<u8>,
        language: &str,
        configured_url: Option<String>,
    ) -> (planned: (AsrRoute, Request))
        requires
            needs_encoding(
                optional_text(configured_url),
            ) ==> audio@.len() <= longest_encodable(),
        ensures
            (planned.0, planned.1@) == transcription_request_view(
                self@.api_key,
                audio@,
                language@,
                optional_text(configured_url),
            ),
    {
        let locale = locale_code(language);
        let endpoint = value_or(
            configured_url,
            "https://ai.api.nvidia.com/v1/genai/nvidia/riva-asr-canary-1b",
        );
        match route_of(endpoint.as_str()) {
            AsrRoute::Hosted => {
                let encoded = encode(&audio);
                let url = transcription_url(endpoint);
                (
                    AsrRoute::Hosted,
                    hosted_request(url, self.api_key.as_str(), encoded.as_str(), locale),
                )
            },
            AsrRoute::Local => {
                let url = transcription_url(endpoint);
                (AsrRoute::Local, local_request(url, audio, locale))
            },
        }
    }

    /// Plans a transcription as `transcription_request` does, for audio of
    /// any length: `None` says that the audio is too long to be sent as
    /// base64 text.
    pub fn try_transcription_request(
        &self,
        audio: Vec<u8>,
        language: &str,
        configured_url: Option<String>,
    ) -> (planned: Option<(AsrRoute, Request)>)
        ensures
            match planned {
                Some(plan) => (plan.0, plan.1@) == transcription_request_view(
                    self@.api_key,
                    audio@,
                    language@,
                    optional_text(configured_url),
                ),
                None => needs_encoding(optional_text(configured_url)) && audio@.len()
                    > longest_encodable(),
            },
    {
        let route = match &configured_url {
            Some(url) => route_of(url.as_str()),
            None => route_of("https://ai.api.nvidia.com/v1/genai/nvidia/riva-asr-canary-1b"),
        };
        match route {
            AsrRoute::Hosted => if encodable(audio.len()) {
                Some(self.transcription_request(audio, language, configured_url))
            } else {
                None
            },
            AsrRoute::Local => Some(self.transcription_request(audio, language, configured_url)),
        }
    }

    /// Says which request has `text` spoken. `configured_url` is the
    /// synthesis endpoint that the environment names, if it names one.
    pub fn synthesis_request(&self, text: &str, configured_url: Option<String>) -> (request:
        Request)
        ensures
            request@ == synthesis_request_view(
                self@.api_key,
                text@,
                optional_text(configured_url),
            ),
    {
        let mut members: Vec<(String, String)> = Vec::new();
        members.push(pair("text", text));
        members.push(pair("speaker", "English-US.Female-1"));
        assert(pairs_view(members@) =~= seq![
            ("text"@, text@),
            ("speaker"@, "English-US.Female-1"@),
        ]);
        Request {
            url: value_or(configured_url, "http://localhost:9000/v1/tts/synthesize"),
            authorization: Some("Bearer ".to_owned().concat(self.api_key.as_str())),
            body: Body::Json(members),
        }
    }
}

/// A reply as mathematics.
pub enum ReplyView {
    Failed(Seq<char>),
    Rejected(Option<Seq<char>>),
    Answered(JsonView),
}

impl View for Reply {
    type V = ReplyView;

    open spec fn view(&self) -> ReplyView {
        match self {
            Reply::Failed(words) => ReplyView::Failed(words@),
            Reply::Rejected(detail) => ReplyView::Rejected(optional_text(*detail)),
            Reply::Answered(document) => ReplyView::Answered(document@),
        }
    }
}

/// The text of a rejection, or the words that stand for it where it could
/// not be read.
pub open spec fn rejection_detail(detail: Option<Seq<char>>) -> Seq<char> {
    configured_or(detail, "Unknown error"@)
}

/// The string member `name` of a document, if it has one.
pub open spec fn text_member(document: JsonView, name: Seq<char>) -> Option<Seq<char>> {
    match document.member(name) {
        Some(value) => value.text(),
        None => None,
    }
}

/// The text of the first entry of a list of transcriptions; empty where
/// there is no such entry or it holds no text.
pub open spec fn first_transcription(list: JsonView) -> Seq<char> {
    match list.element(0) {
        Some(entry) => match text_member(entry, "text"@) {
            Some(text) => text,
            None => Seq::empty(),
        },
        None => Seq::empty(),
    }
}

/// The transcript in the document of an answer. Both interfaces answer with
/// a member `text`; the hosted one may answer with a list `transcriptions`
/// instead. A document with neither holds the empty transcript.
pub open spec fn transcript_in(route: AsrRoute, document: JsonView) -> Seq<char> {
    match text_member(document, "text"@) {
        Some(text) => text,
        None => match (route, document.member("transcriptions"@)) {
            (AsrRoute::Hosted, Some(list)) => first_transcription(list),
            _ => Seq::empty(),
        },
    }
}

/// The words that report a rejected transcription.
pub open spec fn asr_rejection(route: AsrRoute, detail: Option<Seq<char>>) -> Seq<char> {
    match route {
        AsrRoute::Hosted => "NIM ASR API Error (Hosted): "@ + rejection_detail(detail),
        AsrRoute::Local => "NIM ASR API Error (Local): "@ + rejection_detail(detail),
    }
}

/// What the reply to a transcription request means: the transcript, or the
/// message of the failure.
pub open spec fn transcript_of(route: AsrRoute, reply: ReplyView) -> Result<Seq<char>, Seq<char>> {
    match reply {
        ReplyView::Failed(words) => Err(words),
        ReplyView::Rejected(detail) => Err(asr_rejection(route, detail)),
        ReplyView::Answered(document) => Ok(transcript_in(route, document)),
    }
}

/// The words that report a rejected synthesis.
pub open spec fn tts_rejection(url: Seq<char>, detail: Option<Seq<char>>) -> Seq<char> {
    "NIM TTS API Error: "@ + rejection_detail(detail)
        + ". (If running locally, ensure 'nim-tts' container is running at "@ + url + ")"@
}

/// The words that report an answer without audio.
pub open spec fn missing_audio() -> Seq<char> {
    "Could not find audio_content in response"@
}

/// The base64 text of the audio in the reply to a synthesis request, or the
/// message of the failure.
pub open spec fn encoded_speech_of(url: Seq<char>, reply: ReplyView) -> Result<
    Seq<char>,
    Seq<char>,
> {
    match reply {
        ReplyView::Failed(words) => Err(words),
        ReplyView::Rejected(detail) => Err(tts_rejection(url, detail)),
        ReplyView::Answered(document) => match text_member(document, "audio_content"@) {
            Some(encoded) => Ok(encoded),
            None => Err(missing_audio()),
        },
    }
}

/// What the reply to a synthesis request means: the audio, or the message of
/// the failure.
pub open spec fn speech_of(url: Seq<char>, reply: ReplyView) -> Result<Seq<u8>, Seq<char>> {
    match encoded_speech_of(url, reply) {
        Ok(encoded) => base64_bytes(encoded),
        Err(words) => Err(words),
    }
}

/// The string member `name` of a document, if it has one.
fn read_text_member<'a>(document: &'a Json, name: &str) -> (found: Option<&'a str>)
    ensures
        match found {
            Some(text) => text_member(document@, name@) == Some(text@),
            None => text_member(document@, name@) is None,
        },
{
    match document.member(name) {
        Some(value) => value.text(),
        None => None,
    }
}

/// The words of a rejection.
fn detail_or_unknown(detail: &Option<String>) -> (words: &str)
    ensures
        words@ == rejection_detail(
            optional_text(*detail),
        ),
{
    match detail {
        Some(words) => words.as_str(),
        None => "Unknown error",
    }
}

/// Reads the transcript out of the document of an answer.
pub fn read_transcript_in(route: AsrRoute, document: &Json) -> (transcript: String)
    ensures
        transcript@ == transcript_in(route, document@),
{
    match read_text_member(document, "text") {
        Some(text) => text.to_owned(),
        None => {
            let list = match route {
                AsrRoute::Hosted => document.member("transcriptions"),
                AsrRoute::Local => None,
            };
            let first = match list {
                Some(list) => match list.element(0) {
                    Some(entry) => read_text_member(entry, "text"),
                    None => None,
                },
                None => None,
            };
            match first {
                Some(text) => text.to_owned(),
                None => String::new(),
            }
        },
    }
}

/// Says what the reply to a transcription request means.
pub fn read_transcript(route: AsrRoute, reply: Reply) -> (outcome: Result<String, Failure>)
    ensures
        text_outcome(outcome) == transcript_of(route, reply@),
{
    match reply {
        Reply::Failed(message) => Err(Failure { message }),
        Reply::Rejected(detail) => {
            let words = detail_or_unknown(&detail);
            let message = match route {
                AsrRoute::Hosted => "NIM ASR API Error (Hosted): ".to_owned().concat(words),
                AsrRoute::Local => "NIM ASR API Error (Local): ".to_owned().concat(words),
            };
            Err(Failure { message })
        },
        Reply::Answered(document) => Ok(read_transcript_in(route, &document)),
    }
}

/// Finds the base64 text of the audio in the reply to a synthesis request
/// that went to `url`.
pub fn read_encoded_speech(url: &str, reply: Reply) -> (outcome: Result<String, Failure>)
    ensures
        text_outcome(outcome) == encoded_speech_of(url@, reply@),
{
    match reply {
        Reply::Failed(message) => Err(Failure { message }),
        Reply::Rejected(detail) => {
            let message = "NIM TTS API Error: ".to_owned().concat(detail_or_unknown(&detail)).concat(
                ". (If running locally, ensure 'nim-tts' container is running at ",
            ).concat(url).concat(")");
            Err(Failure { message })
        },
        Reply::Answered(document) => match read_text_member(&document, "audio_content") {
            Some(encoded) => Ok(encoded.to_owned()),
            None => Err(Failure { message: "Could not find audio_content in response".to_owned() }),
        },
    }
}

/// Says what a synthesis came to, from what decoding its audio gave: the
/// bytes, or a failure whose message is the decoder's complaint.
pub fn speech_from(decoded: Result<Vec<u8>, String>) -> (outcome: Result<Vec<u8>, Failure>)
    ensures
        audio_outcome(outcome) == match decoded {
            Ok(bytes) => Ok::<Seq<u8>, Seq<char>>(bytes@),
            Err(words) => Err::<Seq<u8>, Seq<char>>(words@),
        },
{
    match decoded {
        Ok(audio) => Ok(audio),
        Err(message) => Err(Failure { message }),
    }
}

/// Says what the reply to a synthesis request that went to `url` means.
pub fn read_speech(url: &str, reply: Reply) -> (outcome: Result<Vec<u8>, Failure>)
    ensures
        audio_outcome(outcome) == speech_of(url@, reply@),
{
    match read_encoded_speech(url, reply) {
        Ok(encoded) => speech_from(decode(encoded.as_str())),
        Err(failure) => Err(failure),
    }
}

} // verus!
