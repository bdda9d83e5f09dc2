//! Process settings, loaded once at startup and immutable afterwards.
//!
//! Loading (files, environment) happens outside the library; the scanner
//! receives the settled values in this shape.

use vstd::prelude::*;
use crate::score::SusScore;
use crate::zulip::ZulipConfig;

verus! {

/// Everything the process is configured with: the debug flag, the notifier
/// configuration, an optional upstream API token, the pause between scan
/// cycles, and the tiered score thresholds.
pub struct Settings {
    pub debug: bool,
    pub zulip: ZulipConfig,
    pub lichess_token: Option<String>,
    pub sleep_time_secs: u64,
    pub score: SusScore,
}

} // verus!
