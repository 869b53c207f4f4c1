//! Settings of the daily English lesson.

use vstd::prelude::*;

verus! {

/// When the lesson is made, from which news, and where it is kept.
#[derive(Debug)]
pub struct EnglishLearningConfig {
    pub enabled: bool,
    pub scheduler_enabled: bool,
    pub schedule_hour: u32,
    pub timezone_offset_hours: i32,
    pub storage_dir: String,
    pub news_sources: Vec<String>,
    pub max_feed_items_per_source: usize,
}

} // verus!
