//! Bearer credentials, the freshness policy, and the cache slot that holds
//! the current credential of a client.
//!
//! Instants are whole seconds since the Unix epoch. The clock is read with
//! [`now_unix`]; every decision takes the instant as an argument.

use vstd::prelude::*;

verus! {

/// A credential is used only while at least this many seconds remain before
/// its expiry.
pub const FRESHNESS_MARGIN: i64 = 600;

/// Time to live, in seconds, assumed when the issuance response does not
/// carry a decimal integer.
pub const DEFAULT_TTL: i64 = 60;

/// Whether `c` is an ASCII decimal digit.
pub open spec fn is_digit(c: char) -> bool {
    '0' <= c && c <= '9'
}

/// The value of a run of decimal digits, most significant first.
pub open spec fn digits_value(s: Seq<char>) -> int
    decreases s.len(),
{
    if s.len() == 0 {
        0
    } else {
        digits_value(s.drop_last()) * 10 + (s.last() as int - '0' as int)
    }
}

/// A non-empty run of decimal digits.
pub open spec fn all_digits(s: Seq<char>) -> bool {
    s.len() > 0 && forall|i: int| 0 <= i < s.len() ==> is_digit(#[trigger] s[i])
}

/// The value of `s` read as a signed decimal `i64`: an optional `+` or `-`,
/// then one or more digits, and a value in range; `None` otherwise.
pub open spec fn decimal_i64(s: Seq<char>) -> Option<int> {
    let negative = s.len() > 0 && s[0] == '-';
    let body = if s.len() > 0 && (s[0] == '-' || s[0] == '+') { s.drop_first() } else { s };
    let v = if negative { -digits_value(body) } else { digits_value(body) };
    if all_digits(body) && i64::MIN <= v <= i64::MAX {
        Some(v)
    } else {
        None
    }
}

/// The time to live in seconds that an issuance response's `expires_in`
/// field grants.
pub open spec fn ttl_of(expires_in: Seq<char>) -> int {
    match decimal_i64(expires_in) {
        Some(v) => v,
        None => DEFAULT_TTL as int,
    }
}

/// Relies on `<i64 as FromStr>::from_str`: an optional sign and decimal
/// digits, no whitespace, and an error on overflow.
#[verifier::external_body]
fn parse_i64(s: &str) -> (r: Option<i64>)
    ensures
        match r {
            Some(v) => decimal_i64(s@) == Some(v as int),
            None => decimal_i64(s@) is None,
        },
{
    s.parse::<i64>().ok()
}

/// Relies on `time::OffsetDateTime::now_utc` and `unix_timestamp`: the
/// current instant as whole seconds since the Unix epoch. Nothing is known
/// of the value.
#[verifier::external_body]
pub fn now_unix() -> (r: i64) {
    time::OffsetDateTime::now_utc().unix_timestamp()
}

/// A bearer credential and the instant at which it expires.
#[derive(Clone, Debug, PartialEq, Eq)]
pub struct AccessToken {
    /// Expiry, in seconds since the Unix epoch.
    pub expires_on: i128,
    pub token: String,
}

impl AccessToken {
    /// The freshness policy: usable at `now` only while more than the
    /// margin remains before expiry.
    pub open spec fn fresh_at(self, now: int) -> bool {
        now + FRESHNESS_MARGIN < self.expires_on
    }

    /// The credential built from an issuance response received at `now`:
    /// the token as given, expiring `expires_in` seconds later, or
    /// [`DEFAULT_TTL`] seconds later where `expires_in` is not a decimal
    /// integer.
    pub fn create(expires_in: &str, access_token: String, now: i64) -> (r: Self)
        ensures
            r.token == access_token,
            r.expires_on == now + ttl_of(expires_in@),
    {
        let ttl = match parse_i64(expires_in) {
            Some(v) => v,
            None => DEFAULT_TTL,
        };
        AccessToken { expires_on: now as i128 + ttl as i128, token: access_token }
    }

    /// Whether the credential may still be presented at `now`.
    pub fn is_usable_at(&self, now: i64) -> (r: bool)
        ensures
            r == self.fresh_at(now as int),
    {
        (now as i128) + (FRESHNESS_MARGIN as i128) < self.expires_on
    }

    /// Whether the credential may still be presented now, by the clock.
    pub fn is_valid(&self) -> (r: bool)
        ensures
            exists|now: i64| r == self.fresh_at(now as int),
    {
        let now = now_unix();
        self.is_usable_at(now)
    }

    /// The bearer token.
    pub fn token(&self) -> (r: &str)
        ensures
            r@ == self.token@,
    {
        self.token.as_str()
    }

    /// A copy of this credential.
    pub fn duplicate(&self) -> (r: Self)
        ensures
            r == *self,
    {
        AccessToken { expires_on: self.expires_on, token: self.token.clone() }
    }
}

/// The slot that holds a client's current credential, if one was issued.
#[derive(Debug)]
pub struct TokenCache {
    pub current: Option<AccessToken>,
}

/// What one request for a credential at a given instant does to the slot
/// `current`, when the issuance exchange would hand out `issued`: the slot
/// after it, the credential returned, and whether an issuance exchange was
/// made.
pub open spec fn request_step(current: Option<AccessToken>, now: int, issued: AccessToken) -> (
    Option<AccessToken>,
    AccessToken,
    bool,
) {
    match current {
        Some(t) if t.fresh_at(now) => (current, t, false),
        _ => (Some(issued), issued, true),
    }
}

/// A single-threaded sequence of requests: the `i`-th at instant `nows[i]`,
/// with `issued[i]` as what an issuance exchange would hand out then.
/// Gives the slot afterwards and the number of issuance exchanges.
pub open spec fn request_run(current: Option<AccessToken>, nows: Seq<int>, issued: Seq<AccessToken>) -> (
    Option<AccessToken>,
    nat,
)
    recommends
        nows.len() == issued.len(),
    decreases nows.len(),
{
    if nows.len() == 0 || issued.len() == 0 {
        (current, 0)
    } else {
        let (next, _, exchanged) = request_step(current, nows[0], issued[0]);
        let (last, n) = request_run(next, nows.drop_first(), issued.drop_first());
        (last, if exchanged { n + 1 } else { n })
    }
}

impl TokenCache {
    /// An empty slot.
    pub fn new() -> (r: Self)
        ensures
            r.current is None,
    {
        TokenCache { current: None }
    }

    /// The read path: a copy of the current credential where it is fresh
    /// at `now`; `None` where an issuance exchange is needed.
    pub fn lookup(&self, now: i64) -> (r: Option<AccessToken>)
        ensures
            match r {
                Some(t) => self.current == Some(t) && t.fresh_at(now as int),
                None => !(self.current matches Some(t) && t.fresh_at(now as int)),
            },
            forall|issued: AccessToken|
                #![trigger request_step(self.current, now as int, issued)]
                {
                    let (next, returned, exchanged) = request_step(self.current, now as int, issued);
                    &&& exchanged <==> r is None
                    &&& r matches Some(t) ==> next == self.current && returned == t
                },
    {
        match &self.current {
            Some(t) => {
                if t.is_usable_at(now) {
                    Some(t.duplicate())
                } else {
                    None
                }
            },
            None => None,
        }
    }

    /// The write path: installs a newly issued credential as the current
    /// one, whole, and returns a copy of it.
    pub fn install(&mut self, token: AccessToken) -> (r: AccessToken)
        ensures
            final(self).current == Some(token),
            r == token,
            forall|now: int|
                #![trigger request_step(old(self).current, now, token)]
                !(old(self).current matches Some(t) && t.fresh_at(now)) ==> request_step(
                    old(self).current,
                    now,
                    token,
                ) == (final(self).current, r, true),
    {
        let copy = token.duplicate();
        self.current = Some(token);
        copy
    }

    /// Builds the credential of an issuance response received at `now` and
    /// installs it.
    pub fn install_issued(&mut self, expires_in: &str, access_token: String, now: i64) -> (r: AccessToken)
        ensures
            final(self).current == Some(r),
            r.token == access_token,
            r.expires_on == now + ttl_of(expires_in@),
    {
        self.install(AccessToken::create(expires_in, access_token, now))
    }

    /// The current credential, fresh or not.
    pub fn current(&self) -> (r: Option<&AccessToken>)
        ensures
            r == match self.current {
                Some(t) => Some(&t),
                None => None::<&AccessToken>,
            },
    {
        self.current.as_ref()
    }
}

/// A credential is usable exactly while the instant plus the margin is
/// before its expiry; and if it is usable at some instant, it is usable at
/// every earlier one.
pub proof fn lemma_freshness_boundary(t: AccessToken, now: int, earlier: int)
    requires
        earlier <= now,
    ensures
        t.fresh_at(now) <==> now + 600 < t.expires_on,
        t.fresh_at(t.expires_on - 600 - 1),
        !t.fresh_at(t.expires_on - 600),
        !t.fresh_at(t.expires_on - 600 + 1),
        t.fresh_at(now) ==> t.fresh_at(earlier),
{
}

/// Once a credential has been installed the slot never becomes empty, and
/// it holds either the credential it held or the newly issued one, whole.
pub proof fn lemma_slot_stays_coherent(current: Option<AccessToken>, now: int, issued: AccessToken)
    ensures
        ({
            let (next, returned, exchanged) = request_step(current, now, issued);
            &&& next is Some
            &&& next == Some(returned)
            &&& (exchanged ==> returned == issued)
            &&& (!exchanged ==> next == current)
        }),
{
}

/// After any sequence of requests the slot holds a credential, provided it
/// held one before or at least one request was made.
pub proof fn lemma_slot_never_empties(current: Option<AccessToken>, nows: Seq<int>, issued: Seq<AccessToken>)
    requires
        nows.len() == issued.len(),
        current is Some || nows.len() > 0,
    ensures
        request_run(current, nows, issued).0 is Some,
    decreases nows.len(),
{
    if nows.len() > 0 {
        let (next, _, _) = request_step(current, nows[0], issued[0]);
        lemma_slot_stays_coherent(current, nows[0], issued[0]);
        lemma_slot_never_empties(next, nows.drop_first(), issued.drop_first());
    }
}

/// A request made while the current credential is fresh makes no issuance
/// exchange and returns that credential; over any sequence of requests at
/// which it stays fresh, no issuance exchange is made at all.
pub proof fn lemma_no_refresh_when_fresh(t: AccessToken, nows: Seq<int>, issued: Seq<AccessToken>)
    requires
        nows.len() == issued.len(),
        forall|i: int| 0 <= i < nows.len() ==> t.fresh_at(#[trigger] nows[i]),
    ensures
        request_run(Some(t), nows, issued) == (Some(t), 0nat),
    decreases nows.len(),
{
    if nows.len() > 0 {
        assert(t.fresh_at(nows[0]));
        let rest = nows.drop_first();
        assert forall|i: int| 0 <= i < rest.len() implies t.fresh_at(#[trigger] rest[i]) by {
            assert(rest[i] == nows[i + 1]);
        }
        lemma_no_refresh_when_fresh(t, rest, issued.drop_first());
    }
}

/// Starting with no credential or a stale one, a sequence of requests makes
/// exactly one issuance exchange, provided the first credential issued
/// stays fresh for the whole sequence; that credential is the one held
/// afterwards, and it is fresh.
pub proof fn lemma_single_refresh_when_stale(
    current: Option<AccessToken>,
    nows: Seq<int>,
    issued: Seq<AccessToken>,
)
    requires
        nows.len() == issued.len(),
        nows.len() > 0,
        !(current matches Some(t) && t.fresh_at(nows[0])),
        forall|i: int| 0 <= i < nows.len() ==> issued[0].fresh_at(#[trigger] nows[i]),
    ensures
        request_run(current, nows, issued) == (Some(issued[0]), 1nat),
        issued[0].fresh_at(nows[nows.len() - 1]),
{
    let rest = nows.drop_first();
    assert forall|i: int| 0 <= i < rest.len() implies issued[0].fresh_at(#[trigger] rest[i]) by {
        assert(rest[i] == nows[i + 1]);
    }
    lemma_no_refresh_when_fresh(issued[0], rest, issued.drop_first());
    assert(issued[0].fresh_at(nows[nows.len() - 1]));
}

/// An issuance response whose `expires_in` is not a decimal integer grants
/// sixty seconds.
pub proof fn lemma_default_ttl(expires_in: Seq<char>)
    requires
        decimal_i64(expires_in) is None,
    ensures
        ttl_of(expires_in) == 60,
{
}

/// A credential issued at `now` with a time to live longer than the margin
/// satisfies the freshness policy at `now`.
pub proof fn lemma_issued_is_fresh(expires_in: Seq<char>, now: int, r: AccessToken)
    requires
        ttl_of(expires_in) > FRESHNESS_MARGIN,
        r.expires_on == now + ttl_of(expires_in),
    ensures
        r.fresh_at(now),
{
}

} // verus!
