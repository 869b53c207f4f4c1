//! What holds of the hub of all that the assistant can do.

use std::sync::Arc;
use vstd::prelude::*;

use crate::capability::{
    CapabilityHub, ConversationCapability, EnglishLearningCapability, MediaTranslateCapability,
    SessionCapability, StructuredExtractionCapability, ToolCapability,
};
use crate::config::llm::MediaTranslateConfig;
use crate::engine::ToolCallEngine;

verus! {

/// What was put into the hub is what it gives out, and conversations, sessions and tools share one
/// engine.
pub proof fn law_hub_gives_out_what_was_put_in(
    engine: Arc<ToolCallEngine>,
    extraction: StructuredExtractionCapability,
    media: MediaTranslateConfig,
    lesson: EnglishLearningCapability,
    hub: CapabilityHub,
    conversation: &ConversationCapability,
    forms: &StructuredExtractionCapability,
    translate: &MediaTranslateCapability,
    learning: &EnglishLearningCapability,
    sessions: &SessionCapability,
    tools: &ToolCapability,
)
    requires
        call_ensures(CapabilityHub::new, (engine, extraction, media, lesson), hub),
        call_ensures(CapabilityHub::conversation, (&hub,), conversation),
        call_ensures(CapabilityHub::extraction, (&hub,), forms),
        call_ensures(CapabilityHub::media_translate, (&hub,), translate),
        call_ensures(CapabilityHub::english_learning, (&hub,), learning),
        call_ensures(CapabilityHub::sessions, (&hub,), sessions),
        call_ensures(CapabilityHub::tools, (&hub,), tools),
    ensures
        conversation.engine == engine,
        sessions.engine == engine,
        tools.engine == engine,
        *forms == extraction,
        translate.config == media,
        *learning == lesson,
{
}

} // verus!
