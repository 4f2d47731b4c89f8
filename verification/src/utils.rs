//! Small shared utilities: previous-frame tracking, application identity
//! for cache paths, and the profile-API endpoints.

use vstd::prelude::*;
use vstd::string::StringExecFns;

verus! {

/// The value a component held in the previous frame.
#[derive(Copy, Clone, PartialEq, Eq, Debug)]
pub struct Prev<T>(pub T);

impl<T> Prev<T> {
    /// Replaces the recorded previous value with the current one.
    pub fn set(&mut self, new: T)
        ensures
            final(self).0 == new,
    {
        self.0 = new;
    }

    /// The recorded previous value.
    pub fn value(&self) -> (r: &T)
        ensures
            *r == self.0,
    {
        &self.0
    }
}

/// Application identification used for caching and other system-level
/// operations.
#[derive(Debug)]
pub struct AppId {
    /// The qualifier or category of the application.
    pub qualifier: String,
    /// The organization that created the application.
    pub organization: String,
    /// The specific application name.
    pub application: String,
}

/// One provider of the player-profile lookup API: its two endpoints and
/// its rate limit.
#[derive(Copy, Clone, Debug)]
pub struct ApiProvider {
    /// The endpoint resolving a username to a profile.
    pub username_base_url: &'static str,
    /// The endpoint resolving a profile id to a profile.
    pub uuid_base_url: &'static str,
    /// How many requests the provider allows per interval.
    pub max_requests: usize,
    /// The length of the rate-limit interval, in seconds.
    pub interval_secs: u64,
}

impl ApiProvider {
    /// The mirror provider with higher rate limits.
    pub fn mat_does_dev() -> (r: Self)
        ensures
            r.max_requests == 10000,
            r.interval_secs == 1,
    {
        Self {
            username_base_url: "https://mowojang.matdoes.dev/users/profiles/minecraft",
            uuid_base_url: "https://mowojang.matdoes.dev/session/minecraft/profile",
            max_requests: 10000,
            interval_secs: 1,
        }
    }

    /// The official provider.
    pub fn mojang() -> (r: Self)
        ensures
            r.max_requests == 600,
            r.interval_secs == 600,
    {
        Self {
            username_base_url: "https://api.mojang.com/users/profiles/minecraft",
            uuid_base_url: "https://sessionserver.mojang.com/session/minecraft/profile",
            max_requests: 600,
            interval_secs: 600,
        }
    }

    /// The URL that resolves one username.
    pub fn username_url(&self, username: &str) -> (r: String)
        ensures
            r@ == self.username_base_url@ + "/"@ + username@,
    {
        let mut s = String::from_str(self.username_base_url);
        s.append("/");
        s.append(username);
        s
    }

    /// The URL that resolves one profile id, rendered in its canonical
    /// text form, asking for a signed profile.
    pub fn uuid_url(&self, uuid: &str) -> (r: String)
        ensures
            r@ == self.uuid_base_url@ + "/"@ + uuid@ + "?unsigned=false"@,
    {
        let mut s = String::from_str(self.uuid_base_url);
        s.append("/");
        s.append(uuid);
        s.append("?unsigned=false");
        s
    }

    /// How many requests the provider allows per interval.
    pub fn max_requests(&self) -> (r: usize)
        ensures
            r == self.max_requests,
    {
        self.max_requests
    }

    /// The length of the rate-limit interval, in seconds.
    pub fn interval_secs(&self) -> (r: u64)
        ensures
            r == self.interval_secs,
    {
        self.interval_secs
    }
}

} // verus!
