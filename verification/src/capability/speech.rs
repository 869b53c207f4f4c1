//! Speech synthesis: how a request is completed and checked, and how the reply is read.

use vstd::prelude::*;
use vstd::string::*;

use crate::config::env;
use crate::config::speech::SpeechSynthesisConfig;
use crate::encoding;
use crate::outside;
use crate::text;

verus! {

/// A text to be spoken; what is not given is taken from the settings. `speed` and `gain` are the
/// bits of 32-bit floats.
#[derive(Debug)]
pub struct SpeechSynthesisRequest {
    pub text: String,
    pub model: Option<String>,
    pub voice: Option<String>,
    pub response_format: Option<String>,
    pub sample_rate: Option<u32>,
    pub speed: Option<u32>,
    pub gain: Option<u32>,
    pub stream: Option<bool>,
}

/// Spoken text.
#[derive(Debug)]
pub struct SpeechSynthesisResponse {
    pub model: String,
    pub voice: String,
    pub response_format: String,
    pub content_type: String,
    pub audio_base64: String,
    pub byte_len: usize,
    pub trace_id: Option<String>,
}

/// The magnitude of a 32-bit float, as bits.
pub open spec fn float_magnitude(bits: u32) -> u32 {
    bits % 0x8000_0000
}

/// The bits of infinity.
pub const FLOAT_INFINITY: u32 = 0x7f80_0000;

/// Whether a 32-bit float is at most zero: a zero of either sign, or a negative number.
pub open spec fn float_at_most_zero(bits: u32) -> bool {
    float_magnitude(bits) == 0 || (bits >= 0x8000_0000 && float_magnitude(bits) <= FLOAT_INFINITY)
}

/// Whether a 32-bit float is neither infinite nor undefined.
pub open spec fn float_finite(bits: u32) -> bool {
    float_magnitude(bits) < FLOAT_INFINITY
}

/// A request with everything filled in.
#[derive(Debug)]
pub struct ResolvedSpeechSynthesisRequest {
    pub model: String,
    pub text: String,
    pub voice: String,
    pub response_format: String,
    pub sample_rate: Option<u32>,
    pub speed: u32,
    pub gain: u32,
    pub stream: bool,
}

/// One value in the body of a request.
#[derive(Debug)]
pub enum BodyValue {
    Text(String),
    Flag(bool),
    Integer(u32),
    /// The bits of a 32-bit float.
    Float(u32),
}

/// The contents of such a value.
pub enum BodyValueView {
    Text(Seq<char>),
    Flag(bool),
    Integer(u32),
    Float(u32),
}

/// One field in the body of a request.
#[derive(Debug)]
pub struct BodyField {
    pub name: String,
    pub value: BodyValue,
}

impl View for BodyField {
    type V = (Seq<char>, BodyValueView);

    open spec fn view(&self) -> (Seq<char>, BodyValueView) {
        (
            self.name@,
            match self.value {
                BodyValue::Text(s) => BodyValueView::Text(s@),
                BodyValue::Flag(b) => BodyValueView::Flag(b),
                BodyValue::Integer(n) => BodyValueView::Integer(n),
                BodyValue::Float(bits) => BodyValueView::Float(bits),
            },
        )
    }
}

/// The contents of a body.
pub open spec fn body_view(fields: Seq<BodyField>) -> Seq<(Seq<char>, BodyValueView)> {
    fields.map_values(|f: BodyField| f@)
}

/// What was asked for, trimmed, where it is more than white space.
pub open spec fn asked(o: Option<String>) -> Option<Seq<char>> {
    env::filled(text::opt_view(o))
}

fn asked_for(o: &Option<String>) -> (r: Option<String>)
    ensures
        text::opt_view(r) == asked(*o),
{
    match o {
        Some(s) => {
            let t = text::trim(s.as_str());
            if t.unicode_len() == 0 {
                None
            } else {
                Some(t.to_owned())
            }
        },
        None => None,
    }
}

/// The voice to speak with: the one asked for, else the one in the settings.
pub open spec fn voice_of(
    config: SpeechSynthesisConfig,
    request: SpeechSynthesisRequest,
) -> Option<Seq<char>> {
    match asked(request.voice) {
        Some(v) => Some(v),
        None => text::opt_view(config.voice),
    }
}

/// The speed to speak at.
pub open spec fn speed_of(config: SpeechSynthesisConfig, request: SpeechSynthesisRequest) -> u32 {
    match request.speed {
        Some(bits) => bits,
        None => config.speed,
    }
}

/// The gain to speak with.
pub open spec fn gain_of(config: SpeechSynthesisConfig, request: SpeechSynthesisRequest) -> u32 {
    match request.gain {
        Some(bits) => bits,
        None => config.gain,
    }
}

/// What is wrong with a request, in the order in which it is looked at.
pub open spec fn request_problem(
    config: SpeechSynthesisConfig,
    request: SpeechSynthesisRequest,
) -> Option<Seq<char>> {
    if text::trimmed(request.text@).len() == 0 {
        Some("text must not be empty"@)
    } else if voice_of(config, request) is None {
        Some("speech synthesis voice is not configured"@)
    } else if float_at_most_zero(speed_of(config, request)) {
        Some("speed must be greater than 0"@)
    } else if !float_finite(gain_of(config, request)) {
        Some("gain must be finite"@)
    } else {
        None
    }
}

/// Whether a request was completed as the settings say.
pub open spec fn resolves(
    config: SpeechSynthesisConfig,
    request: SpeechSynthesisRequest,
    r: ResolvedSpeechSynthesisRequest,
) -> bool {
    &&& r.text@ == text::trimmed(request.text@)
    &&& r.model@ == env::or_default(asked(request.model), config.model@)
    &&& Some(r.voice@) == voice_of(config, request)
    &&& r.response_format@ == env::or_default(
        asked(request.response_format),
        config.response_format@,
    )
    &&& r.sample_rate == match request.sample_rate {
        Some(n) => Some(n),
        None => config.sample_rate,
    }
    &&& r.speed == speed_of(config, request)
    &&& r.gain == gain_of(config, request)
    &&& r.stream == match request.stream {
        Some(b) => b,
        None => config.stream,
    }
}

impl ResolvedSpeechSynthesisRequest {
    /// Completes a request from the settings and checks it.
    pub fn from_request(config: &SpeechSynthesisConfig, request: &SpeechSynthesisRequest) -> (r:
        Result<Self, String>)
        ensures
            match r {
                Ok(resolved) => request_problem(*config, *request) is None && resolves(
                    *config,
                    *request,
                    resolved,
                ),
                Err(m) => request_problem(*config, *request) == Some(m@),
            },
    {
        let words = text::trim(request.text.as_str()).to_owned();
        if words.as_str().unicode_len() == 0 {
            return Err("text must not be empty".to_owned());
        }
        let model = match asked_for(&request.model) {
            Some(m) => m,
            None => config.model.clone(),
        };
        let voice = match asked_for(&request.voice) {
            Some(v) => v,
            None => match &config.voice {
                Some(v) => v.clone(),
                None => return Err("speech synthesis voice is not configured".to_owned()),
            },
        };
        let response_format = match asked_for(&request.response_format) {
            Some(f) => f,
            None => config.response_format.clone(),
        };
        let speed: u32 = match request.speed {
            Some(bits) => bits,
            None => config.speed,
        };
        let gain: u32 = match request.gain {
            Some(bits) => bits,
            None => config.gain,
        };
        let pace: u32 = speed % 0x8000_0000;
        if pace == 0 || (speed >= 0x8000_0000 && pace <= FLOAT_INFINITY) {
            return Err("speed must be greater than 0".to_owned());
        }
        if gain % 0x8000_0000 >= FLOAT_INFINITY {
            return Err("gain must be finite".to_owned());
        }
        Ok(
            ResolvedSpeechSynthesisRequest {
                model,
                text: words,
                voice,
                response_format,
                sample_rate: match request.sample_rate {
                    Some(n) => Some(n),
                    None => config.sample_rate,
                },
                speed,
                gain,
                stream: match request.stream {
                    Some(b) => b,
                    None => config.stream,
                },
            },
        )
    }

    /// The body that is sent for this request.
    pub open spec fn body(&self) -> Seq<(Seq<char>, BodyValueView)> {
        let fields = seq![
            ("model"@, BodyValueView::Text(self.model@)),
            ("input"@, BodyValueView::Text(self.text@)),
            ("voice"@, BodyValueView::Text(self.voice@)),
            ("response_format"@, BodyValueView::Text(self.response_format@)),
            ("speed"@, BodyValueView::Float(self.speed)),
            ("gain"@, BodyValueView::Float(self.gain)),
            ("stream"@, BodyValueView::Flag(self.stream)),
        ];
        match self.sample_rate {
            Some(n) => fields.push(("sample_rate"@, BodyValueView::Integer(n))),
            None => fields,
        }
    }

    /// Writes the body that is sent for this request.
    pub fn to_request_body(&self) -> (r: Vec<BodyField>)
        ensures
            body_view(r@) == self.body(),
    {
        let mut out: Vec<BodyField> = Vec::new();
        out.push(field("model", BodyValue::Text(self.model.clone())));
        out.push(field("input", BodyValue::Text(self.text.clone())));
        out.push(field("voice", BodyValue::Text(self.voice.clone())));
        out.push(field("response_format", BodyValue::Text(self.response_format.clone())));
        out.push(field("speed", BodyValue::Float(self.speed)));
        out.push(field("gain", BodyValue::Float(self.gain)));
        out.push(field("stream", BodyValue::Flag(self.stream)));
        if let Some(n) = self.sample_rate {
            out.push(field("sample_rate", BodyValue::Integer(n)));
        }
        assert(body_view(out@) =~= self.body());
        out
    }
}

fn field(name: &str, value: BodyValue) -> (r: BodyField)
    ensures
        r.name@ == name@,
        r.value == value,
{
    BodyField { name: name.to_owned(), value }
}

/// What was found under the name of a response header.
#[derive(Debug)]
pub enum HeaderRead {
    Missing,
    /// The header is there, but is no text.
    Unreadable,
    Text(String),
}

/// The content type of a response: the one that is told, where it is more than white space.
pub open spec fn content_type_of(header: HeaderRead) -> Seq<char> {
    match header {
        HeaderRead::Text(s) => if text::is_blank(s@) {
            "application/octet-stream"@
        } else {
            s@
        },
        _ => "application/octet-stream"@,
    }
}

/// Reads the content type of a response.
pub fn detect_content_type(header: &HeaderRead) -> (r: String)
    ensures
        r@ == content_type_of(*header),
{
    match header {
        HeaderRead::Text(s) => if text::blank(s.as_str()) {
            "application/octet-stream".to_owned()
        } else {
            s.clone()
        },
        _ => "application/octet-stream".to_owned(),
    }
}

/// The identifier under which the service can trace a request: the first header that is there
/// counts, readable or not.
pub open spec fn trace_id_of(trace: HeaderRead, request: HeaderRead) -> Option<Seq<char>> {
    match trace {
        HeaderRead::Text(s) => Some(s@),
        HeaderRead::Unreadable => None,
        HeaderRead::Missing => match request {
            HeaderRead::Text(s) => Some(s@),
            _ => None,
        },
    }
}

fn trace_id(trace: &HeaderRead, request: &HeaderRead) -> (r: Option<String>)
    ensures
        text::opt_view(r) == trace_id_of(*trace, *request),
{
    match trace {
        HeaderRead::Text(s) => Some(s.clone()),
        HeaderRead::Unreadable => None,
        HeaderRead::Missing => match request {
            HeaderRead::Text(s) => Some(s.clone()),
            _ => None,
        },
    }
}

/// What the service sent back; `status` is the status line as it is shown.
#[derive(Debug)]
pub struct SpeechReply {
    pub success: bool,
    pub status: String,
    pub content_type: HeaderRead,
    pub trace_id: HeaderRead,
    pub request_id: HeaderRead,
    pub body: Vec<u8>,
}

/// A call that is ready to be sent.
#[derive(Debug)]
pub struct SpeechCall {
    pub url: String,
    pub api_key: String,
    pub request: ResolvedSpeechSynthesisRequest,
}

/// The speech synthesis service, as it is configured.
#[derive(Debug)]
pub struct SpeechSynthesisCapability {
    pub config: SpeechSynthesisConfig,
}

impl SpeechSynthesisCapability {
    /// The service with the given settings.
    pub fn new(config: SpeechSynthesisConfig) -> (r: Self)
        ensures
            r.config == config,
    {
        SpeechSynthesisCapability { config }
    }

    /// Whether there is a key.
    pub open spec fn configured(&self) -> bool {
        self.config.api_key matches Some(key) && !text::is_blank(key@)
    }

    /// Whether there is a key.
    pub fn is_configured(&self) -> (r: bool)
        ensures
            r == self.configured(),
    {
        match &self.config.api_key {
            Some(key) => !text::blank(key.as_str()),
            None => false,
        }
    }

    /// Prepares the call for a request. Without a key nothing is sent.
    pub fn prepare(&self, request: &SpeechSynthesisRequest) -> (r: Result<SpeechCall, String>)
        ensures
            match r {
                Ok(call) => {
                    &&& self.configured()
                    &&& request_problem(self.config, *request) is None
                    &&& call.url@ == text::without_trailing(self.config.base_url@, '/')
                        + "/audio/speech"@
                    &&& call.api_key@ == self.config.api_key->Some_0@
                    &&& resolves(self.config, *request, call.request)
                },
                Err(m) => if !self.configured() {
                    m@
                        == "SPEECH_SYNTHESIS_API_KEY is not configured and no SiliconFlow fallback key was found"@
                } else {
                    request_problem(self.config, *request) == Some(m@)
                },
            },
    {
        let missing = "SPEECH_SYNTHESIS_API_KEY is not configured and no SiliconFlow fallback key was found";
        let api_key = match &self.config.api_key {
            Some(key) => if text::blank(key.as_str()) {
                return Err(missing.to_owned());
            } else {
                key.clone()
            },
            None => return Err(missing.to_owned()),
        };
        match ResolvedSpeechSynthesisRequest::from_request(&self.config, request) {
            Ok(resolved) => Ok(
                SpeechCall {
                    url: text::cat(
                        text::trim_end_matches(self.config.base_url.as_str(), '/').as_str(),
                        "/audio/speech",
                    ),
                    api_key,
                    request: resolved,
                },
            ),
            Err(m) => Err(m),
        }
    }
}

/// Reads what the service sent back.
pub fn read_speech_reply(request: &ResolvedSpeechSynthesisRequest, reply: &SpeechReply) -> (r:
    Result<SpeechSynthesisResponse, String>)
    ensures
        match r {
            Ok(response) => {
                &&& reply.success
                &&& response.model@ == request.model@
                &&& response.voice@ == request.voice@
                &&& response.response_format@ == request.response_format@
                &&& response.content_type@ == content_type_of(reply.content_type)
                &&& response.audio_base64@ == encoding::base64_of(reply.body@, false, true)
                &&& response.byte_len == reply.body@.len()
                &&& text::opt_view(response.trace_id) == trace_id_of(
                    reply.trace_id,
                    reply.request_id,
                )
            },
            Err(m) => !reply.success && m@ == "speech synthesis endpoint returned status "@
                + reply.status@ + ": "@ + outside::lossy_utf8(reply.body@),
        },
{
    if !reply.success {
        return Err(
            text::cat4(
                "speech synthesis endpoint returned status ",
                reply.status.as_str(),
                ": ",
                outside::utf8_lossy_text(reply.body.as_slice()).as_str(),
            ),
        );
    }
    Ok(
        SpeechSynthesisResponse {
            model: request.model.clone(),
            voice: request.voice.clone(),
            response_format: request.response_format.clone(),
            content_type: detect_content_type(&reply.content_type),
            audio_base64: outside::base64_encode(reply.body.as_slice()),
            byte_len: reply.body.len(),
            trace_id: trace_id(&reply.trace_id, &reply.request_id),
        },
    )
}

/// A request that was completed carries a speed above zero or undefined and a finite gain.
pub proof fn law_resolved_request_is_sendable(
    config: SpeechSynthesisConfig,
    request: SpeechSynthesisRequest,
    r: ResolvedSpeechSynthesisRequest,
)
    requires
        request_problem(config, request) is None,
        resolves(config, request, r),
    ensures
        r.text@.len() > 0,
        !float_at_most_zero(r.speed),
        float_finite(r.gain),
{
}

} // verus!
