//! Configuration of the moderation-channel notifier.
//!
//! The notifier itself performs network delivery and lives outside the
//! library; only its configuration and credential selection are modeled here.

use vstd::prelude::*;
use crate::util::Auth;

verus! {

/// Where reports go and as whom they are sent: a channel and topic on a
/// notifier site, authenticated by an email + key pair.
pub struct ZulipConfig {
    pub email: String,
    pub key: String,
    pub channel: String,
    pub topic: String,
    pub site: String,
}

impl ZulipConfig {
    /// The credential the notifier sends with: always the basic
    /// email + key pair of this configuration.
    pub fn auth(&self) -> (r: Option<Auth>)
        ensures
            r == Some(Auth::Basic(self.email, self.key)),
    {
        Some(Auth::Basic(self.email.clone(), self.key.clone()))
    }
}

} // verus!
