use vstd::prelude::*;
use crate::error::{ConfigError, CredentialError};

verus! {

/// The issuer identity and private signing key of a service account.
#[derive(Debug, PartialEq)]
pub struct ServiceAccountKey {
    pub client_email: String,
    pub private_key: String,
}

/// The identity and key a well-formed key file carries, when it carries
/// them: what reading the file's JSON text yields.
pub uninterp spec fn parsed_key_of(text: Seq<char>) -> Option<(Seq<char>, Seq<char>)>;

/// Relies on serde_json::from_str and serde_json::Value's object accessors:
/// reads the "client_email" and "private_key" string members of a JSON
/// object, yielding nothing when the text is not such an object. The
/// outcome is a function of the text alone.
#[verifier::external_body]
fn parse_key_fields(text: &str) -> (r: Option<(String, String)>)
    ensures
        r is Some <==> parsed_key_of(text@) is Some,
        r matches Some(p) ==> parsed_key_of(text@) == Some((p.0@, p.1@)),
{
    let parsed: serde_json::Value = match serde_json::from_str(text) {
        Ok(v) => v,
        Err(_) => return None,
    };
    let email = parsed.get("client_email")?.as_str()?.to_owned();
    let key = parsed.get("private_key")?.as_str()?.to_owned();
    Some((email, key))
}

/// Loads a service-account key from the text of a key file. Malformed
/// content — text that is not a JSON object carrying both members, or one
/// whose members are empty — is a startup-fatal configuration fault.
pub fn load_service_account(text: &str) -> (r: Result<ServiceAccountKey, ConfigError>)
    ensures
        parsed_key_of(text@) is None ==> r == Result::<ServiceAccountKey, ConfigError>::Err(
            ConfigError::MalformedKey,
        ),
        parsed_key_of(text@) matches Some(p) ==> (if p.0.len() > 0 && p.1.len() > 0 {
            r is Ok && (r->Ok_0).client_email@ == p.0 && (r->Ok_0).private_key@ == p.1
        } else {
            r == Result::<ServiceAccountKey, ConfigError>::Err(ConfigError::MalformedKey)
        }),
{
    match parse_key_fields(text) {
        None => Err(ConfigError::MalformedKey),
        Some((client_email, private_key)) => {
            if client_email.as_str().is_empty() || private_key.as_str().is_empty() {
                Err(ConfigError::MalformedKey)
            } else {
                Ok(ServiceAccountKey { client_email, private_key })
            }
        },
    }
}

/// A bearer credential and the instant it stops being accepted.
#[derive(Debug, PartialEq)]
pub struct Credential {
    pub access_token: String,
    pub expires_at: i64,
}

/// The safety margin: a handed-out credential stays within its lifetime at
/// least this many seconds past the call that obtained it.
pub const TOKEN_SAFETY_MARGIN_SECS: i64 = 60;

impl Credential {
    /// Usable at `now`: valid for the whole safety margin past the call.
    pub open spec fn spec_valid_at(self, now: i64) -> bool {
        self.expires_at >= now + TOKEN_SAFETY_MARGIN_SECS
    }

    pub fn valid_at(&self, now: i64) -> (r: bool)
        requires
            now <= i64::MAX - TOKEN_SAFETY_MARGIN_SECS,
        ensures
            r == self.spec_valid_at(now),
    {
        self.expires_at >= now + TOKEN_SAFETY_MARGIN_SECS
    }
}

/// The store's shared mutable state: the cached credential and whether a
/// refresh exchange is in flight.
pub struct StoreState {
    pub cached: Option<Credential>,
    pub refresh_in_flight: bool,
}

/// Whether the cache alone can serve a request made at `now`.
pub open spec fn spec_cache_serves(s: StoreState, now: i64) -> bool {
    match s.cached {
        Some(c) => c.spec_valid_at(now),
        None => false,
    }
}

/// What the store tells one caller asking for a token.
#[derive(Debug, PartialEq)]
pub enum TokenAction {
    /// Use this credential: it stays valid past the safety margin.
    UseCached(Credential),
    /// No refresh was in flight and the cache cannot serve: this caller
    /// alone performs the refresh exchange and hands back its outcome.
    StartRefresh,
    /// A refresh is already in flight: wait for its result and ask again;
    /// never start a second exchange.
    AwaitRefresh,
}

/// The decision for one token request.
pub open spec fn spec_request_action(s: StoreState, now: i64) -> TokenAction {
    if s.refresh_in_flight {
        TokenAction::AwaitRefresh
    } else if spec_cache_serves(s, now) {
        match s.cached {
            Some(c) => TokenAction::UseCached(c),
            None => TokenAction::StartRefresh,
        }
    } else {
        TokenAction::StartRefresh
    }
}

/// Where one token request moves the store: only the request that is told
/// to refresh marks the refresh section occupied; the cache never changes.
pub open spec fn spec_request_next(s: StoreState, now: i64) -> StoreState {
    if spec_request_action(s, now) is StartRefresh {
        StoreState { cached: s.cached, refresh_in_flight: true }
    } else {
        s
    }
}

/// The refresh exchange's parsed response: a token and its lifetime in
/// seconds.
#[derive(Debug, PartialEq)]
pub struct RefreshResponse {
    pub access_token: String,
    pub expires_in: i64,
}

/// The credential store: one shared token cache behind one refresh
/// coordination flag, so at most one refresh exchange is ever in flight.
#[derive(Debug)]
pub struct CredentialStore {
    cached: Option<Credential>,
    refresh_in_flight: bool,
}

impl View for CredentialStore {
    type V = StoreState;

    closed spec fn view(&self) -> StoreState {
        StoreState { cached: self.cached, refresh_in_flight: self.refresh_in_flight }
    }
}

impl CredentialStore {
    /// A fresh store: nothing cached, no refresh in flight.
    pub fn new() -> (r: CredentialStore)
        ensures
            r@ == (StoreState { cached: Option::<Credential>::None, refresh_in_flight: false }),
    {
        CredentialStore { cached: None, refresh_in_flight: false }
    }

    /// One caller asks for a token at time `now`. The caller is told to
    /// perform the exchange exactly when no refresh is in flight and the
    /// cache cannot serve the request past the safety margin; a handed-out
    /// credential is always valid past that margin.
    pub fn on_token_request(&mut self, now: i64) -> (r: TokenAction)
        requires
            now <= i64::MAX - TOKEN_SAFETY_MARGIN_SECS,
        ensures
            r == spec_request_action(old(self)@, now),
            final(self)@ == spec_request_next(old(self)@, now),
            r matches TokenAction::UseCached(c) ==> c.spec_valid_at(now),
    {
        if self.refresh_in_flight {
            return TokenAction::AwaitRefresh;
        }
        match &self.cached {
            Some(c) => {
                if c.valid_at(now) {
                    return TokenAction::UseCached(
                        Credential { access_token: c.access_token.clone(), expires_at: c.expires_at },
                    );
                }
            },
            None => {},
        }
        self.refresh_in_flight = true;
        TokenAction::StartRefresh
    }

    /// Drops the cached credential, so that the next request starts a fresh
    /// exchange (unless one is already in flight). Used when the store's
    /// token was rejected, to force one refresh before the single retry.
    pub fn invalidate(&mut self)
        ensures
            final(self)@.cached is None,
            final(self)@.refresh_in_flight == old(self)@.refresh_in_flight,
    {
        self.cached = None;
    }

    /// The outcome of the single in-flight refresh exchange is handed back:
    /// a parsed token and lifetime, or nothing when the exchange failed on
    /// the network. A failed or malformed exchange surfaces as an error and
    /// leaves the cache as it was — never a silently stale or empty token;
    /// a usable response replaces the cache, and every later request within
    /// the new credential's validity observes it.
    pub fn on_refresh_outcome(&mut self, response: Option<RefreshResponse>, now: i64) -> (r: Result<
        Credential,
        CredentialError,
    >)
        requires
            old(self)@.refresh_in_flight,
        ensures
            !final(self)@.refresh_in_flight,
            response is None ==> r == Result::<Credential, CredentialError>::Err(
                CredentialError::ExchangeFailed,
            ) && final(self)@.cached == old(self)@.cached,
            response matches Some(resp) ==> ((resp.access_token@.len() == 0 || resp.expires_in <= 0
                || now + resp.expires_in > i64::MAX) ==> r == Result::<Credential, CredentialError>::Err(
                CredentialError::MalformedResponse,
            ) && final(self)@.cached == old(self)@.cached),
            response matches Some(resp) ==> ((resp.access_token@.len() > 0 && resp.expires_in > 0
                && now + resp.expires_in <= i64::MAX) ==> r is Ok
                && (r->Ok_0).access_token == resp.access_token
                && (r->Ok_0).expires_at == now + resp.expires_in
                && final(self)@.cached == Some(r->Ok_0)),
    {
        self.refresh_in_flight = false;
        match response {
            None => Err(CredentialError::ExchangeFailed),
            Some(resp) => {
                if resp.access_token.as_str().is_empty() || resp.expires_in <= 0 {
                    return Err(CredentialError::MalformedResponse);
                }
                match now.checked_add(resp.expires_in) {
                    None => Err(CredentialError::MalformedResponse),
                    Some(expires_at) => {
                        self.cached = Some(
                            Credential { access_token: resp.access_token.clone(), expires_at },
                        );
                        Ok(Credential { access_token: resp.access_token, expires_at })
                    },
                }
            },
        }
    }
}

/// Folding a burst of token requests over the store state, one request per
/// listed time.
pub open spec fn spec_run_requests(s: StoreState, times: Seq<i64>) -> StoreState
    decreases times.len(),
{
    if times.len() == 0 {
        s
    } else {
        spec_run_requests(spec_request_next(s, times[0]), times.subrange(1, times.len() as int))
    }
}

/// How many of a burst of requests are told to start a refresh exchange.
pub open spec fn spec_count_refresh_starts(s: StoreState, times: Seq<i64>) -> nat
    decreases times.len(),
{
    if times.len() == 0 {
        0
    } else {
        (if spec_request_action(s, times[0]) is StartRefresh {
            1nat
        } else {
            0nat
        }) + spec_count_refresh_starts(
            spec_request_next(s, times[0]),
            times.subrange(1, times.len() as int),
        )
    }
}

/// While a refresh is in flight, every request is told to wait: none
/// starts an exchange and the state does not move.
pub proof fn lemma_requests_wait_while_in_flight(s: StoreState, times: Seq<i64>)
    requires
        s.refresh_in_flight,
    ensures
        spec_count_refresh_starts(s, times) == 0,
        spec_run_requests(s, times) == s,
    decreases times.len(),
{
    if times.len() > 0 {
        lemma_requests_wait_while_in_flight(s, times.subrange(1, times.len() as int));
    }
}

/// Refresh dedup: when no refresh is in flight and the cache can serve
/// none of a burst of concurrent token requests, exactly one request is
/// told to perform the exchange; all the others wait for its result.
pub proof fn lemma_refresh_dedup(s: StoreState, times: Seq<i64>)
    requires
        !s.refresh_in_flight,
        times.len() > 0,
        forall|i: int| 0 <= i < times.len() ==> !spec_cache_serves(s, #[trigger] times[i]),
    ensures
        spec_count_refresh_starts(s, times) == 1,
{
    let s1 = spec_request_next(s, times[0]);
    assert(spec_request_action(s, times[0]) is StartRefresh);
    assert(s1.refresh_in_flight);
    lemma_requests_wait_while_in_flight(s1, times.subrange(1, times.len() as int));
}

/// After the one refresh completes and caches a credential, every request
/// within the credential's validity observes exactly that credential, and
/// none moves the store or starts another exchange.
pub proof fn lemma_refresh_result_shared(s: StoreState, c: Credential, times: Seq<i64>)
    requires
        !s.refresh_in_flight,
        s.cached == Some(c),
        forall|i: int| 0 <= i < times.len() ==> c.spec_valid_at(#[trigger] times[i]),
    ensures
        spec_run_requests(s, times) == s,
        spec_count_refresh_starts(s, times) == 0,
        forall|i: int| 0 <= i < times.len() ==> spec_request_action(s, #[trigger] times[i])
            == TokenAction::UseCached(c),
    decreases times.len(),
{
    if times.len() > 0 {
        assert(spec_cache_serves(s, times[0]));
        assert(spec_request_next(s, times[0]) == s);
        lemma_refresh_result_shared(s, c, times.subrange(1, times.len() as int));
    }
}

} // verus!
