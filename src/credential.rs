use vstd::prelude::*;
use crate::error::AppError;

verus! {

/// The access level a downstream query runs with.
///
/// `Admin` carries nothing: an admin channel is built from the server-held
/// secret alone, never from a value that came with a request.
pub enum CredentialTier {
    Public,
    Authenticated(String),
    Admin,
}

/// The server-held settings of the data service: its address, the public
/// (anonymous) key and the service secret.
pub struct SupabaseConfig {
    pub url: String,
    pub anon_key: String,
    pub service_key: String,
}

/// A configured request channel: base address, static key and the bearer
/// credential sent with every query.
pub struct QueryChannel {
    pub base_url: String,
    pub api_key: String,
    pub bearer: String,
}

/// Where and with which key a change-stream socket is opened.
pub struct RealtimeEndpoint {
    pub socket_url: String,
    pub api_key: String,
}

/// The address, key and bearer of the channel for `tier`; `None` where the
/// tier is refused (an authenticated tier with an empty token).
pub open spec fn channel_spec(cfg: SupabaseConfig, tier: CredentialTier) -> Option<
    (Seq<char>, Seq<char>, Seq<char>),
> {
    match tier {
        CredentialTier::Public => Some((cfg.url@, cfg.anon_key@, cfg.anon_key@)),
        CredentialTier::Authenticated(t) => if t@.len() == 0 {
            None
        } else {
            Some((cfg.url@, cfg.anon_key@, t@))
        },
        CredentialTier::Admin => Some((cfg.url@, cfg.service_key@, cfg.service_key@)),
    }
}

pub open spec fn channel_view(ch: QueryChannel) -> (Seq<char>, Seq<char>, Seq<char>) {
    (ch.base_url@, ch.api_key@, ch.bearer@)
}

/// `s` with every occurrence of `from`, scanned left to right without
/// overlap, replaced by `to`.
pub open spec fn replace_all(s: Seq<char>, from: Seq<char>, to: Seq<char>) -> Seq<char>
    recommends
        from.len() > 0,
    decreases s.len(),
{
    if from.len() == 0 || s.len() < from.len() {
        s
    } else if s.subrange(0, from.len() as int) == from {
        to + replace_all(s.subrange(from.len() as int, s.len() as int), from, to)
    } else {
        seq![s[0]] + replace_all(s.drop_first(), from, to)
    }
}

/// Relies on `str::replace`: every non-overlapping occurrence of a non-empty
/// pattern, from the left, is replaced.
#[verifier::external_body]
fn replace_str(s: &str, from: &str, to: &str) -> (r: String)
    requires
        from@.len() > 0,
    ensures
        r@ == replace_all(s@, from@, to@),
{
    s.replace(from, to)
}

impl SupabaseConfig {
    pub fn new(url: String, anon_key: String, service_key: String) -> (r: SupabaseConfig)
        ensures
            r.url == url,
            r.anon_key == anon_key,
            r.service_key == service_key,
    {
        SupabaseConfig { url, anon_key, service_key }
    }

    /// The channel for anonymous reads: row-level rules apply.
    pub fn public_client(&self) -> (r: QueryChannel)
        ensures
            channel_spec(*self, CredentialTier::Public) == Some(channel_view(r)),
    {
        QueryChannel {
            base_url: self.url.clone(),
            api_key: self.anon_key.clone(),
            bearer: self.anon_key.clone(),
        }
    }

    /// The channel for a signed-in user, who is named by `user_token`.
    pub fn authenticated_client(&self, user_token: &str) -> (r: Result<QueryChannel, AppError>)
        ensures
            user_token@.len() == 0 <==> r is Err,
            r matches Ok(ch) ==> channel_view(ch) == (self.url@, self.anon_key@, user_token@),
            r matches Err(e) ==> e is Authentication,
    {
        if user_token.is_empty() {
            return Err(AppError::authentication("empty user token"));
        }
        Ok(
            QueryChannel {
                base_url: self.url.clone(),
                api_key: self.anon_key.clone(),
                bearer: String::from_str(user_token),
            },
        )
    }

    /// The channel that bypasses row-level rules, built from the service secret.
    pub fn admin_client(&self) -> (r: QueryChannel)
        ensures
            channel_spec(*self, CredentialTier::Admin) == Some(channel_view(r)),
    {
        QueryChannel {
            base_url: self.url.clone(),
            api_key: self.service_key.clone(),
            bearer: self.service_key.clone(),
        }
    }

    /// The channel for `tier`.
    pub fn channel_for(&self, tier: &CredentialTier) -> (r: Result<QueryChannel, AppError>)
        ensures
            channel_spec(*self, *tier) is Some <==> r is Ok,
            r matches Ok(ch) ==> channel_spec(*self, *tier) == Some(channel_view(ch)),
            r matches Err(e) ==> e is Authentication,
    {
        match tier {
            CredentialTier::Public => Ok(self.public_client()),
            CredentialTier::Authenticated(t) => self.authenticated_client(t.as_str()),
            CredentialTier::Admin => Ok(self.admin_client()),
        }
    }

    /// The change-stream socket for `tier`: the service address with its
    /// `https://` scheme turned into `wss://`, and the key of the tier.
    pub fn realtime_endpoint(&self, tier: &CredentialTier) -> (r: Result<RealtimeEndpoint, AppError>)
        ensures
            channel_spec(*self, *tier) is Some <==> r is Ok,
            r matches Ok(ep) ==> ep.socket_url@ == replace_all(self.url@, "https://"@, "wss://"@)
                + "/realtime/v1/websocket"@ && ep.api_key@ == (match *tier {
                CredentialTier::Admin => self.service_key@,
                _ => self.anon_key@,
            }),
            r matches Err(e) ==> e is Authentication,
    {
        let key = match tier {
            CredentialTier::Public => self.anon_key.clone(),
            CredentialTier::Authenticated(t) => {
                if t.as_str().is_empty() {
                    return Err(AppError::authentication("empty user token"));
                }
                self.anon_key.clone()
            },
            CredentialTier::Admin => self.service_key.clone(),
        };
        proof {
            reveal_strlit("https://");
        }
        let base = replace_str(self.url.as_str(), "https://", "wss://");
        Ok(RealtimeEndpoint { socket_url: base.concat("/realtime/v1/websocket"), api_key: key })
    }
}

impl QueryChannel {
    /// The value of the `Authorization` header: `Bearer <credential>`.
    pub fn authorization_header(&self) -> (r: String)
        ensures
            r@ == "Bearer "@ + self.bearer@,
    {
        String::from_str("Bearer ").concat(self.bearer.as_str())
    }
}

/// An admin channel is fixed by the server configuration alone, and an
/// authenticated tier with an empty token is refused.
pub proof fn lemma_tier_boundaries(cfg: SupabaseConfig, token: String)
    ensures
        channel_spec(cfg, CredentialTier::Admin) == Some(
            (cfg.url@, cfg.service_key@, cfg.service_key@),
        ),
        token@.len() == 0 ==> channel_spec(cfg, CredentialTier::Authenticated(token)) is None,
        token@.len() > 0 ==> channel_spec(cfg, CredentialTier::Authenticated(token)) == Some(
            (cfg.url@, cfg.anon_key@, token@),
        ),
{
}

} // verus!
