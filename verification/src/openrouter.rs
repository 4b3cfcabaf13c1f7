use vstd::prelude::*;

use base64::Engine as _;

use crate::settings::opt_view;
use crate::text::{is_trimmed, lemma_trimmed_is_trimmed, trim, trimmed, trimmed_nonempty};

verus! {

/// What a transcription request is sent with.
#[derive(Clone, Debug)]
pub struct OpenRouterConfig {
    pub api_key: String,
    pub model: String,
    pub prompt: String,
    pub app_title: String,
    pub http_referer: Option<String>,
}

/// One part of a message whose content comes in parts.
#[derive(Clone, Debug)]
pub struct MessagePart {
    pub text: Option<String>,
}

/// The content of a reply message: plain text, or a list of parts.
#[derive(Clone, Debug)]
pub enum MessageContent {
    Text(String),
    Parts(Vec<MessagePart>),
}

/// A reply message.
#[derive(Clone, Debug)]
pub struct Message {
    pub content: Option<MessageContent>,
}

/// One choice of a chat completion.
#[derive(Clone, Debug)]
pub struct Choice {
    pub message: Message,
}

/// The body of a successful chat completion reply.
#[derive(Clone, Debug)]
pub struct ChatCompletionResponse {
    pub choices: Vec<Choice>,
}

/// The text of the parts that have text, in order, joined with nothing between.
pub open spec fn parts_text(parts: Seq<MessagePart>) -> Seq<char>
    decreases parts.len(),
{
    if parts.len() == 0 {
        Seq::empty()
    } else {
        parts_text(parts.drop_last()) + match parts.last().text {
            Some(t) => t@,
            None => Seq::empty(),
        }
    }
}

/// The raw text of a message content.
pub open spec fn content_text(content: MessageContent) -> Seq<char> {
    match content {
        MessageContent::Text(t) => t@,
        MessageContent::Parts(parts) => parts_text(parts@),
    }
}

/// The transcript in a reply: the content of the first choice, trimmed, and
/// nothing where there is no choice, no content, or only white space.
pub open spec fn response_transcript(r: ChatCompletionResponse) -> Option<Seq<char>> {
    if r.choices@.len() == 0 {
        None
    } else {
        match r.choices@[0].message.content {
            Some(c) => trimmed_nonempty(content_text(c)),
            None => None,
        }
    }
}

/// The text trimmed, or `None` where it is blank.
pub fn normalize_text(text: &str) -> (r: Option<String>)
    ensures
        opt_view(r) == trimmed_nonempty(text@),
{
    let t = trim(text);
    if t.is_empty() {
        None
    } else {
        Some(t.to_owned())
    }
}

fn join_parts(parts: &Vec<MessagePart>) -> (r: String)
    ensures
        r@ == parts_text(parts@),
{
    let mut joined = String::new();
    let mut i: usize = 0;
    while i < parts.len()
        invariant
            i <= parts@.len(),
            joined@ == parts_text(parts@.take(i as int)),
        decreases parts@.len() - i,
    {
        assert(parts@.take(i + 1).drop_last() =~= parts@.take(i as int));
        match &parts[i].text {
            Some(t) => {
                joined.append(t.as_str());
            },
            None => {},
        }
        i = i + 1;
    }
    assert(parts@.take(i as int) =~= parts@);
    joined
}

impl ChatCompletionResponse {
    /// The transcript of the first choice, trimmed; `None` where it has none.
    pub fn extract_text(&self) -> (r: Option<String>)
        ensures
            opt_view(r) == response_transcript(*self),
    {
        if self.choices.len() == 0 {
            return None;
        }
        match &self.choices[0].message.content {
            None => None,
            Some(MessageContent::Text(text)) => normalize_text(text.as_str()),
            Some(MessageContent::Parts(parts)) => {
                let joined = join_parts(parts);
                normalize_text(joined.as_str())
            },
        }
    }
}

/// The endpoint that transcription requests are posted to.
pub const CHAT_COMPLETIONS_URL: &'static str = "https://openrouter.ai/api/v1/chat/completions";

/// The character of the standard base64 alphabet (RFC 4648) for a 6-bit value.
pub open spec fn base64_digit(v: int) -> char {
    if v < 26 {
        ('A' as int + v) as char
    } else if v < 52 {
        ('a' as int + (v - 26)) as char
    } else if v < 62 {
        ('0' as int + (v - 52)) as char
    } else if v == 62 {
        '+'
    } else {
        '/'
    }
}

/// The standard base64 encoding (RFC 4648 alphabet, `=` padding) of `data`:
/// every three bytes become four digits of six bits each, high bits first, and
/// a final group of one or two bytes is padded with `=` to four characters.
pub open spec fn standard_base64(data: Seq<u8>) -> Seq<char>
    decreases data.len(),
{
    if data.len() == 0 {
        Seq::empty()
    } else {
        let b0 = data[0] as int;
        let b1 = if data.len() > 1 { data[1] as int } else { 0 };
        let b2 = if data.len() > 2 { data[2] as int } else { 0 };
        let group = seq![
            base64_digit(b0 / 4),
            base64_digit((b0 % 4) * 16 + b1 / 16),
            if data.len() > 1 { base64_digit((b1 % 16) * 4 + b2 / 64) } else { '=' },
            if data.len() > 2 { base64_digit(b2 % 64) } else { '=' },
        ];
        if data.len() <= 3 {
            group
        } else {
            group + standard_base64(data.skip(3))
        }
    }
}

/// Four characters for every three bytes or part of three.
pub proof fn lemma_standard_base64_len(data: Seq<u8>)
    ensures
        standard_base64(data).len() == (data.len() + 2) / 3 * 4,
    decreases data.len(),
{
    if data.len() > 2 {
        lemma_standard_base64_len(data.skip(3));
    }
}

/// Calls `base64::engine::general_purpose::STANDARD.encode`. The contract claims
/// that the result is the standard base64 encoding of the bytes, as
/// `standard_base64` states it. `encode` panics where the length of the
/// encoding overflows `usize`, which `requires` rules out.
#[verifier::external_body]
fn encode_base64(data: &[u8]) -> (r: String)
    requires
        data@.len() <= usize::MAX / 4 * 3,
    ensures
        r@ == standard_base64(data@),
{
    base64::engine::general_purpose::STANDARD.encode(data)
}

/// A transcription request, ready to be written out as JSON and posted.
#[derive(Clone, Debug)]
pub struct TranscriptionRequest {
    pub url: String,
    pub headers: Vec<(String, String)>,
    pub model: String,
    pub temperature: u32,
    pub prompt: String,
    pub audio_data: String,
    pub audio_format: String,
}

/// The characters of each header name and value.
pub open spec fn headers_view(h: Seq<(String, String)>) -> Seq<(Seq<char>, Seq<char>)> {
    h.map_values(|p: (String, String)| (p.0@, p.1@))
}

/// The headers of a request: the bearer token, the JSON content type, the app
/// title, and the referer where one is configured.
pub open spec fn request_headers(config: OpenRouterConfig) -> Seq<(Seq<char>, Seq<char>)> {
    let base = seq![
        ("Authorization"@, "Bearer "@ + config.api_key@),
        ("Content-Type"@, "application/json"@),
        ("X-Title"@, config.app_title@),
    ];
    match config.http_referer {
        Some(r) => base.push(("HTTP-Referer"@, r@)),
        None => base,
    }
}

/// The request carries the configured model and prompt, temperature zero, the
/// given audio data and format, and the headers of `request_headers`.
pub open spec fn is_request_for(
    r: TranscriptionRequest,
    config: OpenRouterConfig,
    audio_data: Seq<char>,
    format: Seq<char>,
) -> bool {
    &&& r.url@ == CHAT_COMPLETIONS_URL@
    &&& headers_view(r.headers@) == request_headers(config)
    &&& r.model@ == config.model@
    &&& r.temperature == 0
    &&& r.prompt@ == config.prompt@
    &&& r.audio_data@ == audio_data
    &&& r.audio_format@ == format
}

fn header(name: &str, value: &str) -> (r: (String, String))
    ensures
        r.0@ == name@,
        r.1@ == value@,
{
    (name.to_owned(), value.to_owned())
}

/// The headers that every transcription request is sent with.
pub fn build_headers(config: &OpenRouterConfig) -> (r: Vec<(String, String)>)
    ensures
        headers_view(r@) == request_headers(*config),
{
    let mut bearer = "Bearer ".to_owned();
    bearer.append(config.api_key.as_str());
    let mut headers: Vec<(String, String)> = Vec::new();
    headers.push(header("Authorization", bearer.as_str()));
    headers.push(header("Content-Type", "application/json"));
    headers.push(header("X-Title", config.app_title.as_str()));
    match &config.http_referer {
        Some(r) => {
            headers.push(header("HTTP-Referer", r.as_str()));
        },
        None => {},
    }
    assert(headers_view(headers@) =~= request_headers(*config));
    headers
}

impl TranscriptionRequest {
    /// The request for audio already encoded as base64 text.
    pub fn new(config: &OpenRouterConfig, audio_data: String, format: &str) -> (r: Self)
        ensures
            is_request_for(r, *config, audio_data@, format@),
    {
        TranscriptionRequest {
            url: CHAT_COMPLETIONS_URL.to_owned(),
            headers: build_headers(config),
            model: config.model.clone(),
            temperature: 0,
            prompt: config.prompt.clone(),
            audio_data,
            audio_format: format.to_owned(),
        }
    }

    /// The request for the given audio bytes, which go out base64-encoded.
    pub fn for_audio(config: &OpenRouterConfig, audio: &[u8], format: &str) -> (r: Self)
        requires
            audio@.len() <= usize::MAX / 4 * 3,
        ensures
            is_request_for(r, *config, standard_base64(audio@), format@),
            r.audio_data@.len() == (audio@.len() + 2) / 3 * 4,
    {
        proof {
            lemma_standard_base64_len(audio@);
        }
        let data = encode_base64(audio);
        Self::new(config, data, format)
    }
}

/// Why a transcription produced no text.
#[derive(Clone, Debug)]
pub enum TranscribeError {
    /// The service answered with a status outside 200..=299.
    Api { status: u16, message: String },
    /// A successful reply whose body is not a chat completion.
    InvalidResponse,
    /// A chat completion without transcript text.
    MissingTranscript,
}

/// A status in 200..=299, which `reqwest::StatusCode::is_success` accepts.
pub open spec fn is_success(status: u16) -> bool {
    200 <= status <= 299
}

/// Whether the status is a success.
pub fn is_success_status(status: u16) -> (r: bool)
    ensures
        r == is_success(status),
{
    200 <= status && status <= 299
}

/// What a reply comes to. `error_message` is the `error.message` of the body
/// read as an error envelope, and `reply` the body read as a chat completion,
/// each `None` where the body does not read as one.
pub fn interpret_response(
    status: u16,
    body: &str,
    error_message: Option<String>,
    reply: Option<ChatCompletionResponse>,
) -> (r: Result<String, TranscribeError>)
    ensures
        !is_success(status) ==> (r matches Err(TranscribeError::Api { status: s, message: m })
            && s == status && m@ == match error_message {
            Some(e) => e@,
            None => trimmed(body@),
        }),
        is_success(status) ==> match reply {
            None => r matches Err(TranscribeError::InvalidResponse),
            Some(p) => match response_transcript(p) {
                Some(t) => (r matches Ok(x) && x@ == t),
                None => r matches Err(TranscribeError::MissingTranscript),
            },
        },
{
    if !is_success_status(status) {
        let message = match error_message {
            Some(e) => e,
            None => trim(body).to_owned(),
        };
        return Err(TranscribeError::Api { status, message });
    }
    match reply {
        None => Err(TranscribeError::InvalidResponse),
        Some(p) => match p.extract_text() {
            Some(t) => Ok(t),
            None => Err(TranscribeError::MissingTranscript),
        },
    }
}

/// A transcript taken from a reply is never blank and has no white space at
/// either end.
pub proof fn law_transcript_is_trimmed(r: ChatCompletionResponse)
    ensures
        response_transcript(r) matches Some(t) ==> t.len() > 0 && is_trimmed(t),
{
    if r.choices@.len() > 0 {
        if let Some(c) = r.choices@[0].message.content {
            lemma_trimmed_is_trimmed(content_text(c));
        }
    }
}

/// The text a part contributes: its text, or nothing.
pub open spec fn part_text(part: MessagePart) -> Seq<char> {
    match part.text {
        Some(t) => t@,
        None => Seq::empty(),
    }
}

/// Joining parts joins their texts: the text of two runs of parts is the text of
/// the first followed by that of the second, and one part gives its own text.
pub proof fn law_parts_text_joins(a: Seq<MessagePart>, b: Seq<MessagePart>)
    ensures
        parts_text(a + b) == parts_text(a) + parts_text(b),
        a.len() == 1 ==> parts_text(a) == part_text(a[0]),
        a.len() == 0 ==> parts_text(a) == Seq::<char>::empty(),
    decreases b.len(),
{
    if a.len() == 1 {
        assert(a.drop_last() =~= Seq::<MessagePart>::empty());
        assert(parts_text(a.drop_last()) + part_text(a[0]) =~= part_text(a[0]));
    }
    if b.len() == 0 {
        assert(a + b =~= a);
        assert(parts_text(a) + parts_text(b) =~= parts_text(a));
    } else {
        law_parts_text_joins(a, b.drop_last());
        assert((a + b).drop_last() =~= a + b.drop_last());
        assert(parts_text(a + b) =~= parts_text(a) + parts_text(b.drop_last()) + part_text(
            b.last(),
        ));
    }
}

/// The transcript of a reply is its first choice's whole text, trimmed, or the
/// text of its parts joined in order, trimmed; blank text gives nothing, and so
/// do a reply without choices and a first choice without content.
pub proof fn law_transcript_of_reply(r: ChatCompletionResponse)
    ensures
        r.choices@.len() == 0 ==> response_transcript(r) is None,
        r.choices@.len() > 0 && r.choices@[0].message.content is None ==> response_transcript(
            r,
        ) is None,
        r.choices@.len() > 0 ==> (r.choices@[0].message.content matches Some(
            MessageContent::Text(t),
        ) ==> (trimmed(t@).len() > 0 ==> response_transcript(r) == Some(trimmed(t@))) && (
        trimmed(t@).len() == 0 ==> response_transcript(r) is None)),
        r.choices@.len() > 0 ==> (r.choices@[0].message.content matches Some(
            MessageContent::Parts(ps),
        ) ==> (trimmed(parts_text(ps@)).len() > 0 ==> response_transcript(r) == Some(
            trimmed(parts_text(ps@)),
        )) && (trimmed(parts_text(ps@)).len() == 0 ==> response_transcript(r) is None)),
{
}

/// Only the first choice counts: two replies whose first choices agree give the
/// same transcript, whatever follows.
pub proof fn law_only_first_choice_counts(r1: ChatCompletionResponse, r2: ChatCompletionResponse)
    requires
        r1.choices@.len() > 0,
        r2.choices@.len() > 0,
        r1.choices@[0] == r2.choices@[0],
    ensures
        response_transcript(r1) == response_transcript(r2),
{
}

/// The headers of a request: the bearer token of the key first, then the JSON
/// content type, then the app title; a configured referer adds one header after
/// these and changes none of them.
pub proof fn law_request_headers(config: OpenRouterConfig)
    ensures
        ({
            let h = request_headers(config);
            &&& h.len() == if config.http_referer is Some {
                4int
            } else {
                3int
            }
            &&& h[0] == ("Authorization"@, "Bearer "@ + config.api_key@)
            &&& h[1] == ("Content-Type"@, "application/json"@)
            &&& h[2] == ("X-Title"@, config.app_title@)
            &&& config.http_referer matches Some(r) ==> h == request_headers(
                (OpenRouterConfig { http_referer: None, ..config }),
            ).push(("HTTP-Referer"@, r@))
        }),
{
}

/// A request built for a configuration, audio data and format carries exactly
/// those: the configured model and prompt, the given data and the given format,
/// temperature zero, the chat completions endpoint, and the headers of the
/// configuration.
pub proof fn law_request_fields(
    r: TranscriptionRequest,
    config: OpenRouterConfig,
    audio_data: Seq<char>,
    format: Seq<char>,
)
    requires
        is_request_for(r, config, audio_data, format),
    ensures
        r.audio_format@ == format,
        r.audio_data@ == audio_data,
        r.model@ == config.model@,
        r.prompt@ == config.prompt@,
        r.temperature == 0,
        r.url@ == "https://openrouter.ai/api/v1/chat/completions"@,
        headers_view(r.headers@) == request_headers(config),
{
}

/// Base64 works in groups of three bytes: bytes whose count is a multiple of
/// three encode on their own, and what follows encodes after them.
pub proof fn law_base64_groups(a: Seq<u8>, b: Seq<u8>)
    requires
        a.len() % 3 == 0,
    ensures
        standard_base64(a + b) == standard_base64(a) + standard_base64(b),
    decreases a.len(),
{
    if a.len() == 0 {
        assert(a + b =~= b);
        assert(standard_base64(a) + standard_base64(b) =~= standard_base64(b));
    } else {
        law_base64_groups(a.skip(3), b);
        assert((a + b).skip(3) =~= a.skip(3) + b);
        if a.len() == 3 {
            assert(a.skip(3) =~= Seq::<u8>::empty());
        }
        assert((a + b)[0] == a[0] && (a + b)[1] == a[1] && (a + b)[2] == a[2]);
        if b.len() == 0 && a.len() == 3 {
            assert(a + b =~= a);
        }
    }
}

/// Reply statuses count as success exactly in the range 200 to 299.
pub proof fn law_success_range(status: u16)
    ensures
        is_success(status) <==> 200 <= status && status < 300,
{
}

/// The digits of base64 are, in order of their values, the 64 characters of
/// the standard alphabet.
pub proof fn law_base64_alphabet(v: int)
    requires
        0 <= v < 64,
    ensures
        base64_digit(v)
            == "ABCDEFGHIJKLMNOPQRSTUVWXYZabcdefghijklmnopqrstuvwxyz0123456789+/"@[v],
{
    reveal_strlit("ABCDEFGHIJKLMNOPQRSTUVWXYZabcdefghijklmnopqrstuvwxyz0123456789+/");
}

} // verus!
