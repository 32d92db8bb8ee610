//! OAuth access tokens.
use crate::clock::{monotonic_now, seconds_from, seconds_since};
use crate::text::copy_text;
use std::time::Instant;
use vstd::prelude::*;

verus! {

use crate::clock::{clock_nanos, seconds_between};

/// The answer of the token endpoint.
#[derive(Debug)]
pub struct TokenResponse {
    pub access_token: String,
    pub token_type: Option<String>,
    pub expires_in: Option<u64>,
    pub scope: Option<String>,
}

/// What a [`TokenResponse`] says.
pub ghost struct TokenView {
    pub access_token: Seq<char>,
    pub token_type: Option<Seq<char>>,
    pub expires_in: Option<u64>,
    pub scope: Option<Seq<char>>,
}

impl View for TokenResponse {
    type V = TokenView;

    open spec fn view(&self) -> TokenView {
        TokenView {
            access_token: self.access_token@,
            token_type: self.token_type.deep_view(),
            expires_in: self.expires_in,
            scope: self.scope.deep_view(),
        }
    }
}

impl Clone for TokenResponse {
    /// A second one that says the same.
    fn clone(&self) -> (copy: Self)
        ensures
            copy@ == self@,
    {
        TokenResponse {
            access_token: self.access_token.clone(),
            token_type: copy_text(&self.token_type),
            expires_in: self.expires_in,
            scope: copy_text(&self.scope),
        }
    }
}

/// Seconds for which a token is used: up to a minute before it expires, which it does after an
/// hour where the endpoint does not say when.
pub open spec fn usable_seconds(expires_in: Option<u64>) -> nat {
    let seconds = match expires_in {
        Some(stated) => stated as nat,
        None => 3600,
    };
    if seconds > 60 {
        (seconds - 60) as nat
    } else {
        0
    }
}

/// A token in use.
#[derive(Debug)]
pub struct ActiveToken {
    access_token: String,
    obtained_at: Instant,
    lifetime_seconds: u64,
}

/// What an [`ActiveToken`] says: the secret, the seconds after which it has to be renewed, and
/// the moment from which these count.
pub ghost struct ActiveTokenView {
    pub secret: Seq<char>,
    pub lifetime: nat,
    pub since: Instant,
}

impl View for ActiveToken {
    type V = ActiveTokenView;

    closed spec fn view(&self) -> ActiveTokenView {
        ActiveTokenView {
            secret: self.access_token@,
            lifetime: self.lifetime_seconds as nat,
            since: self.obtained_at,
        }
    }
}

impl Clone for ActiveToken {
    /// A second one that says the same.
    fn clone(&self) -> (copy: Self)
        ensures
            copy@ == self@,
    {
        ActiveToken {
            access_token: self.access_token.clone(),
            obtained_at: self.obtained_at,
            lifetime_seconds: self.lifetime_seconds,
        }
    }
}

impl TokenView {
    /// The token as it is used from a moment on.
    pub open spec fn in_use(self, since: Instant) -> ActiveTokenView {
        ActiveTokenView {
            secret: self.access_token,
            lifetime: usable_seconds(self.expires_in),
            since,
        }
    }
}

impl ActiveTokenView {
    /// The age of the token at a moment, in whole seconds.
    pub open spec fn age(self, clock: Instant) -> nat {
        seconds_between(self.since, clock)
    }
}

impl ActiveToken {
    /// Takes a token into use, from now on.
    pub fn from_response(response: TokenResponse) -> (token: Self)
        ensures
            exists|since: Instant| token@ == #[trigger] response@.in_use(since),
    {
        let since = monotonic_now();
        Self::from_response_at(response, &since)
    }

    /// Takes a token into use, from a moment on.
    pub fn from_response_at(response: TokenResponse, since: &Instant) -> (token: Self)
        ensures
            token@ == response@.in_use(*since),
    {
        let expires_in: u64 = response.expires_in.unwrap_or(3600);
        let refresh_margin: u64 = if expires_in < 60 {
            expires_in
        } else {
            60
        };
        ActiveToken {
            access_token: response.access_token,
            obtained_at: *since,
            lifetime_seconds: expires_in - refresh_margin,
        }
    }

    /// The secret itself.
    pub fn access_token(&self) -> (secret: &str)
        ensures
            secret@ == self@.secret,
    {
        self.access_token.as_str()
    }

    /// Whether a token of this age has to be renewed before it is used again.
    pub fn needs_refresh_at(&self, age_seconds: u64) -> (stale: bool)
        ensures
            stale == (age_seconds >= self@.lifetime),
    {
        age_seconds >= self.lifetime_seconds
    }

    /// The age of the token at a moment, in whole seconds.
    pub fn age_at(&self, clock: &Instant) -> (seconds: u64)
        ensures
            seconds == self@.age(*clock),
    {
        seconds_from(&self.obtained_at, clock)
    }

    /// Whole seconds since the token was taken into use.
    pub fn age_seconds(&self) -> (seconds: u64)
        ensures
            exists|clock: Instant| seconds == #[trigger] self@.age(clock),
    {
        let seconds: u64 = seconds_since(&self.obtained_at);
        proof {
            let clock = choose|clock: Instant|
                seconds == #[trigger] seconds_between(self.obtained_at, clock);
            assert(seconds == self@.age(clock));
        }
        seconds
    }

    /// Whether the token has to be renewed before it is used again, by its age now.
    pub fn needs_refresh(&self) -> (stale: bool)
        ensures
            exists|clock: Instant| stale == (#[trigger] self@.age(clock) >= self@.lifetime),
            self@.lifetime == 0 ==> stale,
    {
        let age_seconds: u64 = self.age_seconds();
        self.needs_refresh_at(age_seconds)
    }
}

/// A token has to be renewed from the very moment on at which its lifetime is over.
pub proof fn tokens_are_stale_from_the_boundary_on(token: ActiveTokenView, clock: Instant)
    requires
        clock_nanos(token.since) <= clock_nanos(clock),
    ensures
        token.age(clock) >= token.lifetime <==> clock_nanos(clock) - clock_nanos(token.since)
            >= token.lifetime * 1_000_000_000,
{
}

/// A token that has to be renewed has to be renewed at every later moment.
pub proof fn stale_tokens_stay_stale(token: ActiveTokenView, earlier: Instant, later: Instant)
    requires
        clock_nanos(earlier) <= clock_nanos(later),
        token.age(earlier) >= token.lifetime,
    ensures
        token.age(later) >= token.lifetime,
{
}

/// A token is used for less time than it is valid, by a minute where it is valid for that long.
pub proof fn tokens_are_renewed_in_time(expires_in: u64)
    ensures
        usable_seconds(Some(expires_in)) <= expires_in,
        expires_in >= 60 ==> usable_seconds(Some(expires_in)) + 60 == expires_in,
        expires_in < 60 ==> usable_seconds(Some(expires_in)) == 0,
        usable_seconds(None) == usable_seconds(Some(3600)),
{
}

/// A token in use carries the secret that was granted, from the moment on when it came, until a
/// minute before it expires; where nothing is said of that, it expires after an hour.
pub proof fn tokens_are_used_as_granted(token: TokenView, since: Instant)
    ensures
        ({
            let used = token.in_use(since);
            let expires_in: int = match token.expires_in {
                Some(seconds) => seconds as int,
                None => 3600,
            };
            &&& used.secret == token.access_token
            &&& used.since == since
            &&& expires_in >= 60 ==> used.lifetime + 60 == expires_in
            &&& expires_in < 60 ==> used.lifetime == 0
        }),
{
}

/// The age of a token is the time since it was taken into use, in whole seconds, and none before.
pub proof fn tokens_age_by_the_second(token: ActiveTokenView, clock: Instant)
    ensures
        ({
            let passed = clock_nanos(clock) - clock_nanos(token.since);
            &&& passed < 1_000_000_000 ==> token.age(clock) == 0
            &&& passed >= 0 ==> token.age(clock) * 1_000_000_000 <= passed && passed < (token.age(
                clock,
            ) + 1) * 1_000_000_000
        }),
{
}

/// What a [`TokenResponse`] says of each of its parts is what the field holds.
pub proof fn tokens_say_what_they_hold(token: TokenResponse)
    ensures
        token@.access_token == token.access_token@,
        token@.token_type == token.token_type.deep_view(),
        token@.expires_in == token.expires_in,
        token@.scope == token.scope.deep_view(),
{
}

}
