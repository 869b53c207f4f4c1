//! What the assistant can do, for the web pages and the channels to build on.

use vstd::prelude::*;

use crate::config::form::FormConfig;
use crate::config::learning::EnglishLearningConfig;
use crate::config::llm::MediaTranslateConfig;
use crate::engine::ToolCallEngine;
use std::sync::Arc;

pub mod speech;

verus! {

/// Conversations.
#[derive(Debug)]
pub struct ConversationCapability {
    pub engine: Arc<ToolCallEngine>,
}

/// Forms filled in from text.
#[derive(Debug)]
pub struct StructuredExtractionCapability {
    pub forms: FormConfig,
}

/// Translation of sound and video.
#[derive(Debug)]
pub struct MediaTranslateCapability {
    pub config: MediaTranslateConfig,
}

/// The daily English lesson.
#[derive(Debug)]
pub struct EnglishLearningCapability {
    pub config: EnglishLearningConfig,
}

/// Sessions.
#[derive(Debug)]
pub struct SessionCapability {
    pub engine: Arc<ToolCallEngine>,
}

/// Tools.
#[derive(Debug)]
pub struct ToolCapability {
    pub engine: Arc<ToolCallEngine>,
}

/// A message for a conversation.
#[derive(Debug)]
pub struct ConversationRequest {
    pub session_id: String,
    pub user_id: String,
    pub message: String,
    pub system_prompt: Option<String>,
    pub max_iterations: Option<usize>,
    pub persist: bool,
}

/// A tool called outside any conversation; `args` is JSON text.
#[derive(Debug)]
pub struct DirectToolInvocationRequest {
    pub user_id: String,
    pub session_id: String,
    pub tool_name: String,
    pub args: String,
}

/// Sound to be turned into text.
#[derive(Debug)]
pub struct MediaTranslateRequest {
    pub source_lang: Option<String>,
    pub target_lang: String,
    pub audio_data_url: String,
    pub audio_format: String,
    pub include_usage: bool,
}

/// Everything that the assistant can do.
#[derive(Debug)]
pub struct CapabilityHub {
    conversation: ConversationCapability,
    extraction: StructuredExtractionCapability,
    media_translate: MediaTranslateCapability,
    english_learning: EnglishLearningCapability,
    sessions: SessionCapability,
    tools: ToolCapability,
}

impl CapabilityHub {
    /// What the hub holds for conversations.
    pub closed spec fn spec_conversation(&self) -> ConversationCapability {
        self.conversation
    }

    /// What the hub holds for forms.
    pub closed spec fn spec_extraction(&self) -> StructuredExtractionCapability {
        self.extraction
    }

    /// What the hub holds for translation.
    pub closed spec fn spec_media_translate(&self) -> MediaTranslateCapability {
        self.media_translate
    }

    /// What the hub holds for the lesson.
    pub closed spec fn spec_english_learning(&self) -> EnglishLearningCapability {
        self.english_learning
    }

    /// What the hub holds for sessions.
    pub closed spec fn spec_sessions(&self) -> SessionCapability {
        self.sessions
    }

    /// What the hub holds for tools.
    pub closed spec fn spec_tools(&self) -> ToolCapability {
        self.tools
    }

    /// Everything that the assistant can do, around one engine.
    pub fn new(
        engine: Arc<ToolCallEngine>,
        extraction: StructuredExtractionCapability,
        media_translate_config: MediaTranslateConfig,
        english_learning: EnglishLearningCapability,
    ) -> (r: Self)
        ensures
            r.spec_conversation().engine == engine,
            r.spec_extraction() == extraction,
            r.spec_media_translate().config == media_translate_config,
            r.spec_english_learning() == english_learning,
            r.spec_sessions().engine == engine,
            r.spec_tools().engine == engine,
    {
        CapabilityHub {
            conversation: ConversationCapability { engine: engine.clone() },
            extraction,
            media_translate: MediaTranslateCapability { config: media_translate_config },
            english_learning,
            sessions: SessionCapability { engine: engine.clone() },
            tools: ToolCapability { engine },
        }
    }

    /// Conversations.
    pub fn conversation(&self) -> (r: &ConversationCapability)
        ensures
            *r == self.spec_conversation(),
    {
        &self.conversation
    }

    /// Forms filled in from text.
    pub fn extraction(&self) -> (r: &StructuredExtractionCapability)
        ensures
            *r == self.spec_extraction(),
    {
        &self.extraction
    }

    /// Translation of sound and video.
    pub fn media_translate(&self) -> (r: &MediaTranslateCapability)
        ensures
            *r == self.spec_media_translate(),
    {
        &self.media_translate
    }

    /// The daily English lesson.
    pub fn english_learning(&self) -> (r: &EnglishLearningCapability)
        ensures
            *r == self.spec_english_learning(),
    {
        &self.english_learning
    }

    /// Sessions.
    pub fn sessions(&self) -> (r: &SessionCapability)
        ensures
            *r == self.spec_sessions(),
    {
        &self.sessions
    }

    /// Tools.
    pub fn tools(&self) -> (r: &ToolCapability)
        ensures
            *r == self.spec_tools(),
    {
        &self.tools
    }
}

} // verus!
