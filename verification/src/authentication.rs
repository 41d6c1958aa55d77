//! Login claims and the claims of a token.
//!
//! A login is claimed for a user between two points in time. A token carries
//! the same claim in whole seconds since the Unix epoch.

use vstd::prelude::*;
use vstd::std_specs::convert::{FromSpec, FromSpecImpl, TryFromSpec, TryFromSpecImpl};

verus! {

/// Nanoseconds in a second.
pub const NANOS_PER_SECOND: i128 = 1_000_000_000;

/// How long a login lasts, in seconds: a year of 365.25 days.
pub const SESSION_SECONDS: u64 = 31_557_600;

/// The span of time on either side of the epoch that a [`Timestamp`] covers,
/// in nanoseconds: 2^64 seconds.
pub const TIMESTAMP_SPAN: i128 = 18_446_744_073_709_551_616_000_000_000;

/// A point in time, counted in nanoseconds from the Unix epoch; negative
/// before it. It lies less than 2^64 seconds from the epoch.
#[derive(Clone, Copy, Debug, PartialEq, Eq)]
pub struct Timestamp {
    nanos: i128,
}

impl View for Timestamp {
    type V = int;

    closed spec fn view(&self) -> int {
        self.nanos as int
    }
}

impl Timestamp {
    #[verifier::type_invariant]
    spec fn within_span(self) -> bool {
        -TIMESTAMP_SPAN < self.nanos < TIMESTAMP_SPAN
    }

    /// Whether a count of nanoseconds from the epoch is a timestamp.
    pub open spec fn representable(nanos: int) -> bool {
        -TIMESTAMP_SPAN < nanos < TIMESTAMP_SPAN
    }

    /// The timestamp that many whole seconds after the epoch.
    pub closed spec fn at_second(secs: u64) -> Timestamp {
        Timestamp { nanos: (secs * NANOS_PER_SECOND) as i128 }
    }

    /// What [`Timestamp::at_second`] is, in nanoseconds.
    pub broadcast proof fn lemma_at_second(secs: u64)
        ensures
            #[trigger] Self::at_second(secs)@ == secs * NANOS_PER_SECOND,
    {
    }

    /// The timestamp `nanos` nanoseconds from the epoch, if there is one.
    pub fn from_nanos(nanos: i128) -> (time: Option<Timestamp>)
        ensures
            match time {
                Some(time) => Self::representable(nanos as int) && time@ == nanos,
                None => !Self::representable(nanos as int),
            },
    {
        if -TIMESTAMP_SPAN < nanos && nanos < TIMESTAMP_SPAN {
            Some(Timestamp { nanos })
        } else {
            None
        }
    }

    /// Nanoseconds from the epoch.
    pub fn nanos(&self) -> (nanos: i128)
        ensures
            nanos == self@,
            Self::representable(nanos as int),
    {
        proof {
            use_type_invariant(self);
        }
        self.nanos
    }

    /// The timestamp `secs` whole seconds after the epoch.
    pub fn from_epoch_seconds(secs: u64) -> (time: Timestamp)
        ensures
            time == Self::at_second(secs),
            time@ == secs * NANOS_PER_SECOND,
    {
        Timestamp { nanos: (secs as i128) * NANOS_PER_SECOND }
    }

    /// Whole seconds since the epoch, rounded down. A time before the epoch
    /// has none, and is handed back as the error.
    pub fn epoch_seconds(&self) -> (secs: Result<u64, BeforeEpoch>)
        ensures
            match secs {
                Ok(secs) => self@ >= 0 && secs == self@ / (NANOS_PER_SECOND as int),
                Err(error) => self@ < 0 && error.time == *self,
            },
    {
        proof {
            use_type_invariant(self);
        }
        if self.nanos < 0 {
            Err(BeforeEpoch { time: *self })
        } else {
            Ok((self.nanos / NANOS_PER_SECOND) as u64)
        }
    }

    /// This time `secs` seconds later, if that is still a timestamp.
    pub fn checked_add_seconds(&self, secs: u64) -> (later: Option<Timestamp>)
        ensures
            match later {
                Some(later) => later@ == self@ + secs * NANOS_PER_SECOND,
                None => !Self::representable(self@ + secs * NANOS_PER_SECOND),
            },
    {
        proof {
            use_type_invariant(self);
        }
        Self::from_nanos(self.nanos + (secs as i128) * NANOS_PER_SECOND)
    }

    /// Whether this time is earlier than `other`.
    pub fn is_before(&self, other: &Timestamp) -> (earlier: bool)
        ensures
            earlier == (self@ < other@),
    {
        self.nanos < other.nanos
    }
}

/// A time that lies before the epoch, where one at or after it was needed.
#[derive(Clone, Copy, Debug, PartialEq, Eq)]
pub struct BeforeEpoch {
    /// The offending time.
    pub time: Timestamp,
}

/// A login: who, until when, since when.
#[derive(Debug)]
pub struct LoginClaims {
    pub user_id: i32,
    pub expires_at: Timestamp,
    pub created_at: Timestamp,
}

/// The claims of a token: subject, expiry and issue time, the latter two in
/// whole seconds since the epoch.
#[derive(Debug)]
pub struct Rfc7519Claims {
    pub sub: i32,
    pub exp: u64,
    pub iat: u64,
}

impl From<Rfc7519Claims> for LoginClaims {
    fn from(value: Rfc7519Claims) -> (claims: LoginClaims) {
        LoginClaims {
            user_id: value.sub,
            expires_at: Timestamp::from_epoch_seconds(value.exp),
            created_at: Timestamp::from_epoch_seconds(value.iat),
        }
    }
}

impl FromSpecImpl<Rfc7519Claims> for LoginClaims {
    open spec fn obeys_from_spec() -> bool {
        true
    }

    open spec fn from_spec(value: Rfc7519Claims) -> LoginClaims {
        LoginClaims {
            user_id: value.sub,
            expires_at: Timestamp::at_second(value.exp),
            created_at: Timestamp::at_second(value.iat),
        }
    }
}

impl TryFrom<LoginClaims> for Rfc7519Claims {
    type Error = BeforeEpoch;

    fn try_from(value: LoginClaims) -> (claims: Result<Rfc7519Claims, BeforeEpoch>) {
        let exp = match value.expires_at.epoch_seconds() {
            Ok(secs) => secs,
            Err(error) => {
                return Err(error);
            },
        };
        let iat = match value.created_at.epoch_seconds() {
            Ok(secs) => secs,
            Err(error) => {
                return Err(error);
            },
        };
        Ok(Rfc7519Claims { sub: value.user_id, exp, iat })
    }
}

impl TryFromSpecImpl<LoginClaims> for Rfc7519Claims {
    open spec fn obeys_try_from_spec() -> bool {
        true
    }

    open spec fn try_from_spec(value: LoginClaims) -> Result<Rfc7519Claims, BeforeEpoch> {
        if value.expires_at@ < 0 {
            Err(BeforeEpoch { time: value.expires_at })
        } else if value.created_at@ < 0 {
            Err(BeforeEpoch { time: value.created_at })
        } else {
            Ok(
                Rfc7519Claims {
                    sub: value.user_id,
                    exp: (value.expires_at@ / (NANOS_PER_SECOND as int)) as u64,
                    iat: (value.created_at@ / (NANOS_PER_SECOND as int)) as u64,
                },
            )
        }
    }
}

/// The claims of a token come back unchanged from the login that they make.
pub proof fn lemma_claims_round_trip(claims: Rfc7519Claims)
    ensures
        <Rfc7519Claims as TryFromSpec<LoginClaims>>::try_from_spec(
            <LoginClaims as FromSpec<Rfc7519Claims>>::from_spec(claims),
        ) == Ok::<Rfc7519Claims, BeforeEpoch>(claims),
{
    Timestamp::lemma_at_second(claims.exp);
    Timestamp::lemma_at_second(claims.iat);
}

impl LoginClaims {
    /// The login of `user_id` that begins at `created` and lasts
    /// [`SESSION_SECONDS`].
    pub fn issue(user_id: i32, created: Timestamp) -> (claims: LoginClaims)
        requires
            Timestamp::representable(created@ + SESSION_SECONDS * NANOS_PER_SECOND),
        ensures
            claims.user_id == user_id,
            claims.created_at == created,
            claims.expires_at@ == created@ + SESSION_SECONDS * NANOS_PER_SECOND,
    {
        let lasts = (SESSION_SECONDS as i128) * NANOS_PER_SECOND;
        let expires_at = Timestamp { nanos: created.nanos() + lasts };
        LoginClaims { user_id, expires_at, created_at: created }
    }

    /// Whether the login is over at `now`: its expiry lies before `now`.
    pub fn is_expired_at(&self, now: &Timestamp) -> (expired: bool)
        ensures
            expired == (self.expires_at@ < now@),
    {
        self.expires_at.is_before(now)
    }
}

} // verus!
