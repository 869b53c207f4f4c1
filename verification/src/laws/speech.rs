//! What holds of speech synthesis.

use vstd::prelude::*;
use vstd::string::*;

use crate::capability::speech;
use crate::capability::speech::{
    BodyField, BodyValue, HeaderRead, ResolvedSpeechSynthesisRequest, SpeechCall, SpeechReply,
    SpeechSynthesisCapability, SpeechSynthesisRequest, SpeechSynthesisResponse,
};
use crate::config::speech::SpeechSynthesisConfig;
use crate::encoding;
use crate::laws::text::lemma_run_at_the_end;
use crate::outside;
use crate::text;

verus! {

/// Whether an option names something: more than white space.
pub open spec fn names(o: Option<String>) -> bool {
    o matches Some(s) && !text::is_blank(s@)
}

/// The caller comes first: what a request names is what is asked of the service, trimmed, whatever
/// the settings hold.
pub proof fn law_caller_comes_first(
    config: &SpeechSynthesisConfig,
    request: &SpeechSynthesisRequest,
    r: Result<ResolvedSpeechSynthesisRequest, String>,
)
    requires
        call_ensures(ResolvedSpeechSynthesisRequest::from_request, (config, request), r),
        r is Ok,
    ensures
        r->Ok_0.text@ == text::trimmed(request.text@),
        names(request.voice) ==> r->Ok_0.voice@ == text::trimmed(request.voice->Some_0@),
        names(request.model) ==> r->Ok_0.model@ == text::trimmed(request.model->Some_0@),
        names(request.response_format) ==> r->Ok_0.response_format@ == text::trimmed(
            request.response_format->Some_0@,
        ),
        request.sample_rate matches Some(n) ==> r->Ok_0.sample_rate == Some(n),
        request.speed matches Some(bits) ==> r->Ok_0.speed == bits,
        request.gain matches Some(bits) ==> r->Ok_0.gain == bits,
        request.stream matches Some(b) ==> r->Ok_0.stream == b,
{
    lemma_blank_options(*request);
}

/// The settings fill the gaps: what a request does not name is taken from them.
pub proof fn law_settings_fill_the_gaps(
    config: &SpeechSynthesisConfig,
    request: &SpeechSynthesisRequest,
    r: Result<ResolvedSpeechSynthesisRequest, String>,
)
    requires
        call_ensures(ResolvedSpeechSynthesisRequest::from_request, (config, request), r),
        r is Ok,
    ensures
        !names(request.voice) ==> (config.voice matches Some(v) && r->Ok_0.voice@ == v@),
        !names(request.model) ==> r->Ok_0.model@ == config.model@,
        !names(request.response_format) ==> r->Ok_0.response_format@ == config.response_format@,
        request.sample_rate is None ==> r->Ok_0.sample_rate == config.sample_rate,
        request.speed is None ==> r->Ok_0.speed == config.speed,
        request.gain is None ==> r->Ok_0.gain == config.gain,
        request.stream is None ==> r->Ok_0.stream == config.stream,
{
    lemma_blank_options(*request);
}

proof fn lemma_blank_options(request: SpeechSynthesisRequest)
    ensures
        request.voice matches Some(s) ==> (text::trimmed(s@).len() == 0 <==> text::is_blank(s@)),
        request.model matches Some(s) ==> (text::trimmed(s@).len() == 0 <==> text::is_blank(s@)),
        request.response_format matches Some(s) ==> (text::trimmed(s@).len() == 0
            <==> text::is_blank(s@)),
{
    if let Some(s) = request.voice {
        text::lemma_trimmed_empty(s@);
    }
    if let Some(s) = request.model {
        text::lemma_trimmed_empty(s@);
    }
    if let Some(s) = request.response_format {
        text::lemma_trimmed_empty(s@);
    }
}

/// The sign bit of a 32-bit float.
pub open spec fn is_negative(bits: u32) -> bool {
    bits >= 0x8000_0000
}

/// A request is refused exactly where there is nothing to say, no voice to say it with, a speed that
/// is zero or less, or a gain that is no finite number; and for the first of these that holds. A
/// speed that is not a number is let through.
pub proof fn law_request_is_refused_for_a_reason(
    config: &SpeechSynthesisConfig,
    request: &SpeechSynthesisRequest,
    r: Result<ResolvedSpeechSynthesisRequest, String>,
)
    requires
        call_ensures(ResolvedSpeechSynthesisRequest::from_request, (config, request), r),
    ensures
        ({
            let speed = match request.speed {
                Some(bits) => bits,
                None => config.speed,
            };
            let gain = match request.gain {
                Some(bits) => bits,
                None => config.gain,
            };
            let speed_is_zero = speed == 0 || speed == 0x8000_0000;
            let speed_is_less = 0x8000_0000 < speed <= 0xff80_0000;
            let gain_is_finite = gain < 0x7f80_0000 || 0x8000_0000 <= gain < 0xff80_0000;
            if text::is_blank(request.text@) {
                r matches Err(m) && m@ == "text must not be empty"@
            } else if !names(request.voice) && config.voice is None {
                r matches Err(m) && m@ == "speech synthesis voice is not configured"@
            } else if speed_is_zero || speed_is_less {
                r matches Err(m) && m@ == "speed must be greater than 0"@
            } else if !gain_is_finite {
                r matches Err(m) && m@ == "gain must be finite"@
            } else {
                r is Ok
            }
        }),
{
    lemma_blank_options(*request);
    text::lemma_trimmed_empty(request.text@);
    let speed = match request.speed {
        Some(bits) => bits,
        None => config.speed,
    };
    let gain = match request.gain {
        Some(bits) => bits,
        None => config.gain,
    };
    assert(speed % 0x8000_0000 == if speed >= 0x8000_0000 {
        speed - 0x8000_0000
    } else {
        speed as int
    });
    assert(gain % 0x8000_0000 == if gain >= 0x8000_0000 {
        gain - 0x8000_0000
    } else {
        gain as int
    });
}

/// Whether a body holds exactly one field of a name, with that value.
pub open spec fn holds_once(fields: Seq<BodyField>, name: Seq<char>, value: BodyValue) -> bool {
    exists|i: int| #[trigger]
        is_only(fields, name, i) && match value {
            BodyValue::Text(s) => fields[i].value matches BodyValue::Text(t) && s@ == t@,
            other => fields[i].value == other,
        }
}

/// Whether the field at a place is the only one of its name.
pub open spec fn is_only(fields: Seq<BodyField>, name: Seq<char>, i: int) -> bool {
    &&& 0 <= i < fields.len()
    &&& fields[i].name@ == name
    &&& forall|j: int| 0 <= j < fields.len() && j != i ==> (#[trigger] fields[j]).name@ != name
}

/// Everything in a completed request is sent, each under its own name: the text under `input`, and
/// the sample rate only where there is one.
pub proof fn law_request_is_sent_whole(
    request: &ResolvedSpeechSynthesisRequest,
    r: Vec<BodyField>,
)
    requires
        call_ensures(ResolvedSpeechSynthesisRequest::to_request_body, (request,), r),
    ensures
        holds_once(r@, "model"@, BodyValue::Text(request.model)),
        holds_once(r@, "input"@, BodyValue::Text(request.text)),
        holds_once(r@, "voice"@, BodyValue::Text(request.voice)),
        holds_once(r@, "response_format"@, BodyValue::Text(request.response_format)),
        holds_once(r@, "speed"@, BodyValue::Float(request.speed)),
        holds_once(r@, "gain"@, BodyValue::Float(request.gain)),
        holds_once(r@, "stream"@, BodyValue::Flag(request.stream)),
        request.sample_rate matches Some(n) ==> holds_once(
            r@,
            "sample_rate"@,
            BodyValue::Integer(n),
        ),
        r@.len() == if request.sample_rate is Some {
            8int
        } else {
            7
        },
{
    reveal_strlit("model");
    reveal_strlit("input");
    reveal_strlit("voice");
    reveal_strlit("response_format");
    reveal_strlit("speed");
    reveal_strlit("gain");
    reveal_strlit("stream");
    reveal_strlit("sample_rate");
    assert("model"@[0] == 'm' && "input"@[0] == 'i' && "voice"@[0] == 'v');
    assert("response_format"@[0] == 'r' && "gain"@[0] == 'g');
    assert("speed"@[1] == 'p' && "stream"@[1] == 't' && "sample_rate"@[1] == 'a');
    assert("speed"@[0] == 's' && "stream"@[0] == 's' && "sample_rate"@[0] == 's');
    let b = speech::body_view(r@);
    assert(b == request.body());
    assert forall|j: int| 0 <= j < r@.len() implies b[j] == (#[trigger] r@[j])@ by {}
    assert(b.len() == r@.len() && b.len() >= 7);
    assert(b[0] == r@[0]@ && b[1] == r@[1]@ && b[2] == r@[2]@ && b[3] == r@[3]@);
    assert(b[4] == r@[4]@ && b[5] == r@[5]@ && b[6] == r@[6]@);
    assert(is_only(r@, "model"@, 0));
    assert(is_only(r@, "input"@, 1));
    assert(is_only(r@, "voice"@, 2));
    assert(is_only(r@, "response_format"@, 3));
    assert(is_only(r@, "speed"@, 4));
    assert(is_only(r@, "gain"@, 5));
    assert(is_only(r@, "stream"@, 6));
    if request.sample_rate is Some {
        assert(b[7] == r@[7]@);
        assert(is_only(r@, "sample_rate"@, 7));
    }
}

/// A call goes to the speech endpoint below the configured address, however many slashes that ends
/// with, under the configured key; without a key that is more than white space nothing is sent.
pub proof fn law_call_goes_to_the_service(
    service: &SpeechSynthesisCapability,
    request: &SpeechSynthesisRequest,
    r: Result<SpeechCall, String>,
    resolved: Result<ResolvedSpeechSynthesisRequest, String>,
    configured: bool,
)
    requires
        call_ensures(SpeechSynthesisCapability::prepare, (service, request), r),
        call_ensures(SpeechSynthesisCapability::is_configured, (service,), configured),
        call_ensures(
            ResolvedSpeechSynthesisRequest::from_request,
            (&service.config, request),
            resolved,
        ),
    ensures
        configured <==> names(service.config.api_key),
        !names(service.config.api_key) ==> (r matches Err(m) && m@
            == "SPEECH_SYNTHESIS_API_KEY is not configured and no SiliconFlow fallback key was found"@),
        names(service.config.api_key) ==> (r is Ok <==> resolved is Ok),
        names(service.config.api_key) && r is Err ==> r->Err_0@ == resolved->Err_0@,
        r matches Ok(call) ==> {
            &&& call.api_key@ == service.config.api_key->Some_0@
            &&& exists|n: int|
                0 <= n <= service.config.base_url@.len() && call.url@ == #[trigger]
                service.config.base_url@.take(n) + "/audio/speech"@ && (n > 0
                    ==> service.config.base_url@[n - 1] != '/') && forall|i: int|
                    n <= i < service.config.base_url@.len() ==> service.config.base_url@[i] == '/'
            &&& call.request.text@ == resolved->Ok_0.text@
            &&& call.request.model@ == resolved->Ok_0.model@
            &&& call.request.voice@ == resolved->Ok_0.voice@
            &&& call.request.response_format@ == resolved->Ok_0.response_format@
            &&& call.request.sample_rate == resolved->Ok_0.sample_rate
            &&& call.request.speed == resolved->Ok_0.speed
            &&& call.request.gain == resolved->Ok_0.gain
            &&& call.request.stream == resolved->Ok_0.stream
        },
{
    if r is Ok {
        let base = service.config.base_url@;
        lemma_run_at_the_end(base, '/');
        let n = text::without_trailing(base, '/').len() as int;
        assert(r->Ok_0.url@ == base.take(n) + "/audio/speech"@);
    }
}

/// What comes back is what the service sent: its bytes as Base64, how many they are, and what kind
/// they are; beside the model, voice and format that were asked for.
pub proof fn law_spoken_bytes_come_back(
    request: &ResolvedSpeechSynthesisRequest,
    reply: &SpeechReply,
    r: Result<SpeechSynthesisResponse, String>,
)
    requires
        call_ensures(speech::read_speech_reply, (request, reply), r),
    ensures
        r is Ok <==> reply.success,
        r matches Ok(response) ==> {
            &&& response.audio_base64@ == encoding::base64_of(reply.body@, false, true)
            &&& response.byte_len == reply.body@.len()
            &&& response.model@ == request.model@
            &&& response.voice@ == request.voice@
            &&& response.response_format@ == request.response_format@
            &&& reply.content_type matches HeaderRead::Text(s) ==> (!text::is_blank(s@)
                ==> response.content_type@ == s@)
            &&& (reply.content_type !is Text || text::is_blank(reply.content_type->Text_0@))
                ==> response.content_type@ == "application/octet-stream"@
            &&& reply.trace_id matches HeaderRead::Text(s) ==> (
            response.trace_id matches Some(id) && id@ == s@)
            &&& reply.trace_id is Unreadable ==> response.trace_id is None
            &&& reply.trace_id is Missing ==> match reply.request_id {
                HeaderRead::Text(s) => response.trace_id matches Some(id) && id@ == s@,
                _ => response.trace_id is None,
            }
        },
        r matches Err(m) ==> m@ == "speech synthesis endpoint returned status "@ + reply.status@
            + ": "@ + outside::lossy_utf8(reply.body@),
{
}

} // verus!
