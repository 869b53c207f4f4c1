use mimic_shrimp::capability::speech::{
    detect_content_type, read_speech_reply, BodyValue, HeaderRead, ResolvedSpeechSynthesisRequest,
    SpeechReply, SpeechSynthesisCapability, SpeechSynthesisRequest, SpeechSynthesisResponse,
};
use mimic_shrimp::channel::audio::{
    estimate_audio_duration_ms, mp3_bitrate_kbps, mp3_frame_length_bytes, mp3_sample_rate,
    mp3_samples_per_frame, normalize_audio_format, skip_id3v2_tag, MpegLayer, MpegVersion,
};
use mimic_shrimp::channel::english::{
    looks_like_english_text, normalize_text_for_speech, should_send_english_audio_reply,
};
use mimic_shrimp::channel::feishu::{
    begin_audio, callback_ack, handle_audio_message_event, pending_conversation, pending_reply,
    text_reply, AudioEvent, AudioJob, AudioState,
};
use mimic_shrimp::channel::reply::{
    after_conversation, build_audio_reply, build_text_reply, ReplyEvent, ReplyStep,
};
use mimic_shrimp::channel::{ChannelKind, InboundAudioMessage, InboundTextMessage};
use mimic_shrimp::config::channel::FeishuCallbackConfig;
use mimic_shrimp::config::speech::SpeechSynthesisConfig;

fn test_config() -> SpeechSynthesisConfig {
    SpeechSynthesisConfig {
        api_key: Some("test-key".to_string()),
        base_url: "https://api.siliconflow.cn/v1".to_string(),
        model: "MOSS-TTSD-v0.5".to_string(),
        voice: Some("alex".to_string()),
        response_format: "mp3".to_string(),
        sample_rate: Some(32_000),
        speed: 1.0f32.to_bits(),
        gain: 0.0f32.to_bits(),
        stream: false,
    }
}

fn speech(text: &str) -> SpeechSynthesisRequest {
    SpeechSynthesisRequest {
        text: text.to_string(),
        model: None,
        voice: None,
        response_format: None,
        sample_rate: None,
        speed: None,
        gain: None,
        stream: None,
    }
}

#[test]
fn request_resolution_falls_back_to_config_defaults() {
    let resolved =
        ResolvedSpeechSynthesisRequest::from_request(&test_config(), &speech("hello world"))
            .expect("resolved request");

    assert_eq!(resolved.model, "MOSS-TTSD-v0.5");
    assert_eq!(resolved.voice, "alex");
    assert_eq!(resolved.response_format, "mp3");
    assert_eq!(resolved.sample_rate, Some(32_000));
    assert!(!resolved.stream);
}

#[test]
fn request_body_contains_optional_sample_rate_when_present() {
    let resolved = ResolvedSpeechSynthesisRequest::from_request(
        &test_config(),
        &SpeechSynthesisRequest {
            text: "hello world".to_string(),
            model: Some("IndexTTS-2".to_string()),
            voice: Some("alex".to_string()),
            response_format: Some("wav".to_string()),
            sample_rate: Some(24_000),
            speed: Some(1.1f32.to_bits()),
            gain: Some(2.5f32.to_bits()),
            stream: Some(true),
        },
    )
    .expect("resolved request");

    let body = resolved.to_request_body();
    let value = |name: &str| &body.iter().find(|f| f.name == name).expect("field").value;
    assert!(matches!(value("model"), BodyValue::Text(s) if s == "IndexTTS-2"));
    assert!(matches!(value("input"), BodyValue::Text(s) if s == "hello world"));
    assert!(matches!(value("response_format"), BodyValue::Text(s) if s == "wav"));
    assert!(matches!(value("sample_rate"), BodyValue::Integer(24_000)));
    let float = |name: &str| match value(name) {
        BodyValue::Float(bits) => f64::from(f32::from_bits(*bits)),
        _ => panic!("{name} as float"),
    };
    assert!((float("speed") - 1.1).abs() < 1e-6);
    assert!((float("gain") - 2.5).abs() < 1e-6);
    assert!(matches!(value("stream"), BodyValue::Flag(true)));
    assert_eq!(body.len(), 8);
}

#[test]
fn speech_requests_are_checked() {
    let problem = |request: SpeechSynthesisRequest| {
        ResolvedSpeechSynthesisRequest::from_request(&test_config(), &request).unwrap_err()
    };
    assert_eq!(problem(speech(" ")), "text must not be empty");
    for speed in [0.0f32, -0.0, -1.5, f32::NEG_INFINITY] {
        let mut request = speech("x");
        request.speed = Some(speed.to_bits());
        assert_eq!(problem(request), "speed must be greater than 0");
    }
    for gain in [f32::INFINITY, f32::NEG_INFINITY, f32::NAN] {
        let mut request = speech("x");
        request.gain = Some(gain.to_bits());
        assert_eq!(problem(request), "gain must be finite");
    }
    let mut undefined = speech("x");
    undefined.speed = Some(f32::NAN.to_bits());
    undefined.gain = Some((-3.0f32).to_bits());
    assert!(ResolvedSpeechSynthesisRequest::from_request(&test_config(), &undefined).is_ok());
    let mut config = test_config();
    config.voice = None;
    assert_eq!(
        ResolvedSpeechSynthesisRequest::from_request(&config, &speech("x")).unwrap_err(),
        "speech synthesis voice is not configured"
    );
}

#[test]
fn speech_needs_a_key() {
    let mut config = test_config();
    config.base_url = "https://x/v1//".to_string();
    let ready = SpeechSynthesisCapability::new(config);
    assert!(ready.is_configured());
    let call = ready.prepare(&speech(" hi ")).unwrap();
    assert_eq!(call.url, "https://x/v1/audio/speech");
    assert_eq!(call.api_key, "test-key");
    assert_eq!(call.request.text, "hi");
    let mut config = test_config();
    config.api_key = Some("  ".to_string());
    let blank = SpeechSynthesisCapability::new(config);
    assert!(!blank.is_configured());
    assert_eq!(
        blank.prepare(&speech("hi")).unwrap_err(),
        "SPEECH_SYNTHESIS_API_KEY is not configured and no SiliconFlow fallback key was found"
    );
}

fn speech_reply(success: bool, body: &[u8]) -> SpeechReply {
    SpeechReply {
        success,
        status: "500 Internal Server Error".to_string(),
        content_type: HeaderRead::Missing,
        trace_id: HeaderRead::Missing,
        request_id: HeaderRead::Text("r-1".to_string()),
        body: body.to_vec(),
    }
}

#[test]
fn speech_replies_are_read() {
    let resolved =
        ResolvedSpeechSynthesisRequest::from_request(&test_config(), &speech("hi")).unwrap();
    let response = read_speech_reply(&resolved, &speech_reply(true, b"hello")).unwrap();
    assert_eq!(response.audio_base64, "aGVsbG8=");
    assert_eq!(response.byte_len, 5);
    assert_eq!(response.content_type, "application/octet-stream");
    assert_eq!(response.trace_id.as_deref(), Some("r-1"));
    assert_eq!(
        read_speech_reply(&resolved, &speech_reply(false, b"no")).unwrap_err(),
        "speech synthesis endpoint returned status 500 Internal Server Error: no"
    );
    let mut unreadable = speech_reply(true, b"");
    unreadable.trace_id = HeaderRead::Unreadable;
    assert_eq!(read_speech_reply(&resolved, &unreadable).unwrap().trace_id, None);
    assert_eq!(detect_content_type(&HeaderRead::Text("audio/wav ".to_string())), "audio/wav ");
    assert_eq!(detect_content_type(&HeaderRead::Text(" ".to_string())), "application/octet-stream");
}

#[test]
fn detects_english_text_heuristically() {
    assert!(looks_like_english_text(
        "President Trump is engaging in a blend of diplomacy and diversions."
    ));
    assert!(!looks_like_english_text(
        "总统正在进行外交与消遣的混合活动。"
    ));
}

#[test]
fn english_needs_letters_words_and_few_chinese_characters() {
    assert!(looks_like_english_text("abcd efgh ijkl"));
    assert!(!looks_like_english_text("abcd efgh ijk"));
    assert!(!looks_like_english_text("abcdef ghijkl"));
    assert!(looks_like_english_text("abcd1efgh2ijkl"));
    assert!(looks_like_english_text("abcd efgh ijkl 一二三四五"));
    assert!(!looks_like_english_text("abcd efgh ijkl 一二三四五六"));
}

#[test]
fn normalizes_multiline_markdownish_text_for_speech() {
    assert_eq!(
        normalize_text_for_speech("**Hello**\n\nThis is  a test.\n"),
        "Hello This is a test."
    );
}

#[test]
fn normalization_handles_all_line_ends() {
    assert_eq!(normalize_text_for_speech("a\r\n\r\n __b__\t c\rd"), "a b c d");
    assert_eq!(normalize_text_for_speech(" ** \n"), "");
}

#[test]
fn only_sends_audio_reply_for_english_transcript_and_answer() {
    assert!(should_send_english_audio_reply(
        "How can I improve my pronunciation today?",
        "Try reading the focus sentence one more time."
    ));
    assert!(!should_send_english_audio_reply(
        "How can I improve my pronunciation today?",
        "你可以再读一遍重点句子。"
    ));
}

fn wav(byte_rate: u32, data_size: u32) -> Vec<u8> {
    let mut bytes = vec![0u8; 44];
    bytes[..4].copy_from_slice(b"RIFF");
    bytes[8..12].copy_from_slice(b"WAVE");
    bytes[28..32].copy_from_slice(&byte_rate.to_le_bytes());
    bytes[40..44].copy_from_slice(&data_size.to_le_bytes());
    bytes
}

#[test]
fn wav_duration_is_size_over_rate() {
    assert_eq!(estimate_audio_duration_ms("wav", &wav(64_000, 96_000)), Some(1_500));
    assert_eq!(estimate_audio_duration_ms(" X-WAV", &wav(1, u32::MAX)), Some(4_294_967_295_000));
    assert_eq!(estimate_audio_duration_ms("wave", &wav(0, 1)), None);
    let mut broken = wav(1, 1);
    broken[9] = 0;
    assert_eq!(estimate_audio_duration_ms("wav", &broken), None);
    assert_eq!(estimate_audio_duration_ms("wav", &wav(1, 1)[..43]), None);
    assert_eq!(estimate_audio_duration_ms("opus", &wav(1, 1)), None);
}

#[test]
fn mp3_duration_counts_frames() {
    // MPEG 1 layer III, 128 kbit/s, 44.1 kHz: frames of 417 bytes and 1152 samples.
    let mut frame = vec![0u8; 417];
    frame[..4].copy_from_slice(&[0xff, 0xfb, 0x90, 0x00]);
    let mut bytes = Vec::new();
    for _ in 0..10 {
        bytes.extend_from_slice(&frame);
    }
    assert_eq!(estimate_audio_duration_ms("mp3", &bytes), Some(261));
    let mut tagged = b"ID3\x04\x00\x00\x00\x00\x01\x02".to_vec();
    assert_eq!(skip_id3v2_tag(&tagged), Some(140));
    tagged.extend_from_slice(&[0u8; 130]);
    tagged.extend_from_slice(&bytes);
    assert_eq!(estimate_audio_duration_ms("mpeg", &tagged), Some(261));
    assert_eq!(estimate_audio_duration_ms("mp3", &bytes[..4169]), Some(235));
    assert_eq!(estimate_audio_duration_ms("mp3", &[0u8; 100]), None);
    assert_eq!(estimate_audio_duration_ms("mp3", &[]), None);
}

#[test]
fn mp3_tables_are_as_published() {
    assert_eq!(mp3_sample_rate(MpegVersion::V25, 2), Some(8_000));
    assert_eq!(mp3_sample_rate(MpegVersion::V1, 3), None);
    assert_eq!(mp3_bitrate_kbps(MpegVersion::V1, MpegLayer::L1, 14), Some(448));
    assert_eq!(mp3_bitrate_kbps(MpegVersion::V2, MpegLayer::L3, 1), Some(8));
    assert_eq!(mp3_bitrate_kbps(MpegVersion::V1, MpegLayer::L3, 15), None);
    assert_eq!(mp3_bitrate_kbps(MpegVersion::V1, MpegLayer::L3, 0), None);
    assert_eq!(mp3_frame_length_bytes(MpegVersion::V1, MpegLayer::L1, 448, 32_000, 1), Some(676));
    assert_eq!(mp3_frame_length_bytes(MpegVersion::V2, MpegLayer::L3, 64, 22_050, 0), Some(208));
    assert_eq!(mp3_frame_length_bytes(MpegVersion::V1, MpegLayer::L3, 4_294_968, 0, 0), None);
    assert_eq!(mp3_frame_length_bytes(MpegVersion::V1, MpegLayer::L2, 29_000, 1, 7), Some(4_176_000_007));
    assert_eq!(mp3_samples_per_frame(MpegVersion::V2, MpegLayer::L3), 576);
    assert_eq!(normalize_audio_format(" MPEG "), "mp3");
}

#[test]
fn answers_come_from_the_lesson_first() {
    let step = build_text_reply(
        &ReplyStep::AskLesson,
        &ReplyEvent::Lesson(Some(" read it ".to_string())),
    );
    assert!(matches!(step, ReplyStep::Answer(s) if s == "read it"));
    let step = build_text_reply(&ReplyStep::AskLesson, &ReplyEvent::Lesson(None));
    assert!(matches!(step, ReplyStep::Converse));
    let step = build_audio_reply(&ReplyStep::AskLesson, &ReplyEvent::Lesson(Some(" ".to_string())));
    assert!(matches!(step, ReplyStep::AskShadowing));
    let step = build_audio_reply(&ReplyStep::AskShadowing, &ReplyEvent::Shadowing(None));
    assert!(matches!(step, ReplyStep::Converse));
    let step =
        build_audio_reply(&ReplyStep::Converse, &ReplyEvent::Answered("  ".to_string()));
    assert!(matches!(step, ReplyStep::Answer(s) if s == "我暂时还没有合适的回复，请稍后再试。"));
    assert_eq!(after_conversation(" ok "), " ok ");
}

fn voice(duration_ms: Option<u64>) -> InboundAudioMessage {
    InboundAudioMessage {
        channel: ChannelKind::Feishu,
        message_id: "m".to_string(),
        user_id: "u".to_string(),
        session_id: "s".to_string(),
        file_key: "f".to_string(),
        resource_type: "file".to_string(),
        format_hint: None,
        duration_ms,
    }
}

fn job(speech_configured: bool) -> AudioJob {
    let mut config = FeishuCallbackConfig::default();
    config.audio_target_lang = "zh".to_string();
    AudioJob::new(voice(None), &config, speech_configured)
}

fn downloaded(learning: bool) -> AudioEvent {
    AudioEvent::Downloaded {
        mime_type: "audio/ogg".to_string(),
        format: "ogg".to_string(),
        bytes: b"hi".to_vec(),
        learning,
    }
}

#[test]
fn silent_voice_message_is_answered_at_once() {
    let state = begin_audio(&voice(Some(0)));
    let reply = pending_reply(&job(true), &state).expect("reply");
    assert!(reply.text.starts_with("我收到了这条语音，但飞书回调里显示时长是 0 秒。"));
    assert_eq!(reply.reply_to_message_id, "m");
    let state = handle_audio_message_event(&job(true), state, AudioEvent::ReplySent);
    assert!(matches!(state, AudioState::Done { warning: None }));
    assert!(matches!(begin_audio(&voice(Some(1))), AudioState::Download));
}

#[test]
fn voice_message_is_written_down_answered_and_spoken() {
    let job = job(true);
    let state = handle_audio_message_event(&job, AudioState::Download, downloaded(true));
    match &state {
        AudioState::Translate { request, learning } => {
            assert!(*learning);
            assert_eq!(request.source_lang.as_deref(), Some("en"));
            assert_eq!(request.target_lang, "en");
            assert_eq!(request.audio_data_url, "data:audio/ogg;base64,aGk=");
            assert!(request.include_usage);
        }
        _ => panic!("not translated"),
    }
    let said = "How can I improve my pronunciation today?";
    let state = handle_audio_message_event(
        &job,
        state,
        AudioEvent::Translated { outcome: Ok(format!(" {said} ")) },
    );
    let state = handle_audio_message_event(&job, state, AudioEvent::LessonReplied { reply: None });
    let state = handle_audio_message_event(&job, state, AudioEvent::ShadowingReplied { reply: None });
    let asked = pending_conversation(&job, &state).expect("conversation");
    assert_eq!(asked.message, said);
    assert!(asked.persist);
    let state = handle_audio_message_event(
        &job,
        state,
        AudioEvent::Answered { answer: "Try reading the **focus** sentence one more time.".to_string() },
    );
    let state = handle_audio_message_event(&job, state, AudioEvent::ReplySent);
    match &state {
        AudioState::Speak { speech } => {
            assert_eq!(speech.text, "Try reading the focus sentence one more time.");
            assert_eq!(speech.response_format.as_deref(), Some("opus"));
            assert_eq!(speech.sample_rate, Some(48_000));
        }
        _ => panic!("not spoken"),
    }
    let response = |audio: &str| SpeechSynthesisResponse {
        model: "m".to_string(),
        voice: "v".to_string(),
        response_format: "opus".to_string(),
        content_type: "audio/opus".to_string(),
        audio_base64: audio.to_string(),
        byte_len: 2,
        trace_id: None,
    };
    let sent = handle_audio_message_event(
        &job,
        state,
        AudioEvent::Spoken { response: response("aGk=") },
    );
    match &sent {
        AudioState::SendAudio { reply } => {
            assert_eq!(reply.bytes, b"hi");
            assert_eq!(reply.file_name, "english-reply.opus");
            assert_eq!(reply.duration_ms, None);
        }
        _ => panic!("not sent"),
    }
    let done = handle_audio_message_event(&job, sent, AudioEvent::AudioSent);
    assert!(matches!(done, AudioState::Done { warning: None }));
    let broken = handle_audio_message_event(
        &job,
        AudioState::Speak { speech: speech("x") },
        AudioEvent::Spoken { response: response("a?") },
    );
    assert!(matches!(broken, AudioState::Done { warning: Some(w) }
        if w.starts_with("failed to send synthesized english audio reply: invalid synthesized audio base64: Invalid symbol 63")));
    let failed = handle_audio_message_event(
        &job,
        AudioState::Speak { speech: speech("x") },
        AudioEvent::SpeechFailed { error: "down".to_string() },
    );
    assert!(matches!(failed, AudioState::Done { warning: Some(w) }
        if w == "failed to send synthesized english audio reply: down"));
}

#[test]
fn unheard_voice_message_is_an_error() {
    let job = job(true);
    let state = handle_audio_message_event(&job, AudioState::Download, downloaded(false));
    match &state {
        AudioState::Translate { request, .. } => {
            assert_eq!(request.source_lang, None);
            assert_eq!(request.target_lang, "zh");
        }
        _ => panic!("not translated"),
    }
    let state = handle_audio_message_event(
        &job,
        state,
        AudioEvent::Translated { outcome: Err("noise".to_string()) },
    );
    assert!(pending_reply(&job, &state).is_some());
    let state = handle_audio_message_event(&job, state, AudioEvent::ReplySent);
    assert!(matches!(state, AudioState::Failed { message } if message == "failed to transcribe channel audio: noise"));
    let state = handle_audio_message_event(&job, AudioState::Download, downloaded(false));
    let state = handle_audio_message_event(
        &job,
        state,
        AudioEvent::Translated { outcome: Ok("  ".to_string()) },
    );
    assert_eq!(
        pending_reply(&job, &state).unwrap().text,
        "我收到了语音消息，但这次没有成功识别出可用文本。"
    );
}

#[test]
fn text_replies_go_to_the_message() {
    let event = InboundTextMessage {
        channel: ChannelKind::Feishu,
        event_id: None,
        message_id: "m".to_string(),
        chat_id: None,
        chat_type: None,
        user_id: "u".to_string(),
        session_id: "s".to_string(),
        text: "hi".to_string(),
    };
    let reply = text_reply(&event, "ho");
    assert_eq!(reply.channel.as_str(), "feishu");
    assert_eq!((reply.reply_to_message_id.as_str(), reply.text.as_str()), ("m", "ho"));
    assert_eq!(callback_ack(), "{\"code\":0,\"msg\":\"ok\"}");
    assert_eq!(ChannelKind::Weixin.as_str(), "weixin");
}
