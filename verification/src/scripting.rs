use vstd::prelude::*;

verus! {

/// Permission scope carried by a scripting grant.
#[derive(Clone, Copy, Debug, PartialEq, Eq, Structural)]
pub enum ScriptingScope {
    LocalControlRead,
    LocalControlMutateAppState,
    LocalControlMutateMetadataConfiguration,
    LocalControlMutateUnderlyingData,
}

/// How a scripting grant was obtained.
#[derive(Clone, Debug, PartialEq, Eq)]
pub enum ScriptingIdentitySource {
    VerifiedWarpTerminal { session_id: String },
    ExternalApiKey { key_id: String },
}

/// An instant in UTC: whole seconds since the Unix epoch and the nanoseconds past them.
#[derive(Clone, Copy, Debug, PartialEq, Eq, Structural)]
pub struct UtcTimestamp {
    pub seconds: i64,
    pub nanos: u32,
}

/// `a` is strictly earlier than `b`.
pub open spec fn earlier(a: UtcTimestamp, b: UtcTimestamp) -> bool {
    a.seconds < b.seconds || (a.seconds == b.seconds && a.nanos < b.nanos)
}

/// The instant of a clock reading of `seconds` and `nanos` past the Unix epoch, or `None`
/// when the clock reads earlier than the epoch or its seconds do not fit an `i64`.
pub open spec fn utc_instant(elapsed: Option<(u64, u32)>) -> Option<UtcTimestamp> {
    match elapsed {
        Some((seconds, nanos)) => if seconds <= i64::MAX {
            Some(UtcTimestamp { seconds: seconds as i64, nanos })
        } else {
            None
        },
        None => None,
    }
}

/// Converts a clock reading since the Unix epoch into a UTC instant.
pub fn utc_instant_of(elapsed: Option<(u64, u32)>) -> (instant: Option<UtcTimestamp>)
    ensures
        instant == utc_instant(elapsed),
{
    match elapsed {
        Some((seconds, nanos)) => if seconds <= 9_223_372_036_854_775_807u64 {
            Some(UtcTimestamp { seconds: seconds as i64, nanos })
        } else {
            None
        },
        None => None,
    }
}

/// The current UTC time read from the system clock, or `None` when the clock reads before
/// the Unix epoch (or beyond the `i64` range of seconds). When it is some instant, its
/// nanoseconds stay under one second and its seconds are not negative.
fn utc_now() -> (now: Option<UtcTimestamp>)
    ensures
        now matches Some(t) ==> t.nanos < 1_000_000_000 && t.seconds >= 0,
{
    let clock = crate::auth::system_time_now();
    utc_instant_of(crate::auth::duration_since_unix_epoch(&clock))
}

/// An authenticated scripting grant attached to a local-control credential: who it was
/// issued to, how, with which scopes, and when it lapses.
#[derive(Clone, Debug, PartialEq, Eq)]
pub struct ScriptingGrant {
    pub source: ScriptingIdentitySource,
    pub subject: String,
    pub scopes: Vec<ScriptingScope>,
    pub issued_at: UtcTimestamp,
    pub expires_at: UtcTimestamp,
}

impl ScriptingGrant {
    /// Whether the grant has lapsed at `now`: from its expiry instant on.
    pub fn is_expired_at(&self, now: UtcTimestamp) -> (expired: bool)
        ensures
            expired == !earlier(now, self.expires_at),
    {
        !(now.seconds < self.expires_at.seconds || (now.seconds == self.expires_at.seconds
            && now.nanos < self.expires_at.nanos))
    }

    /// Whether the grant counts as lapsed for the clock reading `now`: from its expiry
    /// instant on, and whenever the clock could not be read as a UTC instant.
    pub open spec fn is_expired_reading(self, now: Option<UtcTimestamp>) -> bool {
        match now {
            Some(now) => !earlier(now, self.expires_at),
            None => true,
        }
    }

    /// Whether the grant counts as lapsed for a clock reading `now`: lapsed from its expiry
    /// instant on, and lapsed when the clock could not be read as a UTC instant.
    pub fn is_expired_given(&self, now: Option<UtcTimestamp>) -> (expired: bool)
        ensures
            expired == self.is_expired_reading(now),
    {
        match now {
            Some(now) => self.is_expired_at(now),
            None => true,
        }
    }

    /// Whether the grant has lapsed at the current time. A clock that reads before the Unix
    /// epoch gives no instant, and the grant then counts as lapsed.
    pub fn is_expired(&self) -> (expired: bool)
        ensures
            exists|now: Option<UtcTimestamp>|
                #![trigger self.is_expired_reading(now)]
                expired == self.is_expired_reading(now),
    {
        let now = utc_now();
        self.is_expired_given(now)
    }

    /// Whether the grant carries `scope`.
    pub fn has_scope(&self, scope: &ScriptingScope) -> (present: bool)
        ensures
            present == self.scopes@.contains(*scope),
    {
        let mut i: usize = 0;
        while i < self.scopes.len()
            invariant
                0 <= i <= self.scopes@.len(),
                forall|j: int| 0 <= j < i ==> self.scopes@[j] != *scope,
            decreases self.scopes@.len() - i,
        {
            if self.scopes[i] == *scope {
                return true;
            }
            i = i + 1;
        }
        false
    }
}

/// A grant that has lapsed stays lapsed: expiry is never undone by a later time.
pub proof fn lemma_expiry_is_permanent(expires_at: UtcTimestamp, now: UtcTimestamp, later: UtcTimestamp)
    requires
        !earlier(now, expires_at),
        !earlier(later, now),
    ensures
        !earlier(later, expires_at),
{
}

/// A verified Warp-terminal session that a proof broker may mint grants for.
#[derive(Clone, Debug, PartialEq, Eq)]
pub struct TerminalProofSession {
    pub session_id: String,
    pub instance_id: String,
    pub revoked: bool,
    pub expires_at: UtcTimestamp,
}

/// A stored API key, by its opaque id; the raw key is never held.
#[derive(Clone, Debug, PartialEq, Eq)]
pub struct ApiKeyStorageRef {
    pub key_id: String,
    pub subject: String,
    pub scopes: Vec<ScriptingScope>,
}

/// Status of the external scripting API key.
#[derive(Clone, Debug, PartialEq, Eq)]
pub enum ApiKeyStatus {
    NotConfigured,
    Configured { key_id: String, subject: String, scopes: Vec<ScriptingScope> },
}

/// What `warpctrl auth status` reports.
#[derive(Clone, Debug, PartialEq, Eq)]
pub struct AuthStatusSummary {
    pub app_user_logged_in: bool,
    pub app_user_subject: Option<String>,
    pub outside_warp_authenticated_grants_enabled: bool,
    pub api_key_status: ApiKeyStatus,
}

} // verus!
