//! What the monitor is configured with.

use vstd::prelude::*;

verus! {

/// Seconds between two polls unless configured otherwise.
pub const DEFAULT_POLL_INTERVAL_SECS: u64 = 300;

/// The credentials for the quota service and the pause between polls.
#[derive(Clone, Debug)]
pub struct AppConfig {
    pub session_key: String,
    pub org_id: String,
    pub poll_interval_secs: u64,
}

impl Default for AppConfig {
    /// No credentials, and a poll every five minutes.
    fn default() -> (config: AppConfig)
        ensures
            config.session_key@ == Seq::<char>::empty(),
            config.org_id@ == Seq::<char>::empty(),
            config.poll_interval_secs == DEFAULT_POLL_INTERVAL_SECS,
    {
        AppConfig {
            session_key: String::new(),
            org_id: String::new(),
            poll_interval_secs: DEFAULT_POLL_INTERVAL_SECS,
        }
    }
}

impl AppConfig {
    /// The configuration that was stored: each part that is absent keeps its
    /// default.
    pub fn from_stored(
        session_key: Option<String>,
        org_id: Option<String>,
        poll_interval_secs: Option<u64>,
    ) -> (config: AppConfig)
        ensures
            config.session_key@ == match session_key {
                Some(k) => k@,
                None => Seq::<char>::empty(),
            },
            config.org_id@ == match org_id {
                Some(o) => o@,
                None => Seq::<char>::empty(),
            },
            config.poll_interval_secs == match poll_interval_secs {
                Some(n) => n,
                None => DEFAULT_POLL_INTERVAL_SECS,
            },
    {
        AppConfig {
            session_key: match session_key {
                Some(k) => k,
                None => String::new(),
            },
            org_id: match org_id {
                Some(o) => o,
                None => String::new(),
            },
            poll_interval_secs: match poll_interval_secs {
                Some(n) => n,
                None => DEFAULT_POLL_INTERVAL_SECS,
            },
        }
    }

    /// Whether a session key that was found in an earlier place of storage
    /// is to be taken over: only where none is set and the one found is not
    /// empty.
    pub open spec fn spec_adopts(self, found: Option<String>) -> bool {
        self.session_key@.len() == 0 && found is Some && found->0@.len() > 0
    }

    /// Takes over a session key that was found in an earlier place of
    /// storage, and says whether it did; see `spec_adopts`. Where it did, the
    /// key is to be moved to its present place.
    pub fn adopt_session_key(&mut self, found: Option<String>) -> (adopted: bool)
        ensures
            adopted == old(self).spec_adopts(found),
            final(self).org_id == old(self).org_id,
            final(self).poll_interval_secs == old(self).poll_interval_secs,
            final(self).session_key@ == if adopted {
                found->0@
            } else {
                old(self).session_key@
            },
    {
        if !self.session_key.as_str().is_empty() {
            return false;
        }
        match found {
            Some(key) => {
                if key.as_str().is_empty() {
                    false
                } else {
                    self.session_key = key;
                    true
                }
            },
            None => false,
        }
    }

    /// Whether both credentials are set.
    pub fn is_configured(&self) -> (r: bool)
        ensures
            r == (self.session_key@.len() > 0 && self.org_id@.len() > 0),
    {
        !self.session_key.as_str().is_empty() && !self.org_id.as_str().is_empty()
    }
}

} // verus!
