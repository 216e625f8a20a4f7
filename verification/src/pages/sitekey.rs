//! The page that shows one sitekey.
use vstd::prelude::*;

use crate::models::{Captcha, CaptchaStats, Level};

verus! {

/// What the page of a sitekey shows.
#[derive(Debug, Clone, PartialEq, Eq)]
pub struct IndexPage {
    pub duration: u32,
    pub name: String,
    pub key: String,
    pub levels: Vec<Level>,
    pub stats: CaptchaStats,
    pub publish_benchmarks: bool,
}

impl IndexPage {
    /// The page of sitekey `key`: its cooldown and name from its
    /// configuration, its levels, its statistics and whether its benchmarks
    /// are published.
    pub fn new(
        stats: CaptchaStats,
        config: Captcha,
        levels: Vec<Level>,
        key: String,
        publish_benchmarks: bool,
    ) -> (p: IndexPage)
        ensures
            p.duration == config.duration as u32,
            p.name == config.description,
            p.levels == levels,
            p.key == key,
            p.stats == stats,
            p.publish_benchmarks == publish_benchmarks,
    {
        IndexPage {
            duration: config.duration as u32,
            name: config.description,
            levels,
            key,
            stats,
            publish_benchmarks,
        }
    }
}

/// A sitekey created with cooldown `duration` (stored by
/// `crate::db::duration_param`) shows that same cooldown on its page.
pub proof fn lemma_page_shows_created_duration(duration: u32, config: Captcha)
    requires
        config.duration == duration as i32,
    ensures
        config.duration as u32 == duration,
{
    assert(((duration as i32) as u32) == duration) by (bit_vector);
}

} // verus!
