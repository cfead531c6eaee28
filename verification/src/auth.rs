//! The shared token and the check that guards the agent-facing routes.

use vstd::prelude::*;
use vstd::string::*;
use crate::obj::RekcodCfg;
use crate::text::{append_decimal, decimal, str_eq};

verus! {

/// Status of an answer to a request without the right token.
pub const UNAUTHORIZED: u16 = 401;

/// Host part of the configuration that a server writes for itself.
pub const LOCAL_HOST: &'static str = "127.0.0.1:";

/// The token of this process: unset at first, then set once and for good.
#[derive(Debug)]
pub struct TokenStore {
    token: Option<String>,
}

impl View for TokenStore {
    type V = Option<Seq<char>>;

    closed spec fn view(&self) -> Option<Seq<char>> {
        match self.token {
            Some(t) => Some(t@),
            None => None,
        }
    }
}

impl TokenStore {
    /// A store without a token.
    pub fn new() -> (s: TokenStore)
        ensures
            s@ is None,
    {
        TokenStore { token: None }
    }

    /// Whether the token has been set.
    pub fn is_set(&self) -> (r: bool)
        ensures
            r == (self@ is Some),
    {
        self.token.is_some()
    }
}

/// The token. It must have been set.
pub fn get_token(store: &TokenStore) -> (r: &str)
    requires
        store@ is Some,
    ensures
        Some(r@) == store@,
{
    match &store.token {
        Some(t) => t.as_str(),
        None => "",
    }
}

/// Sets the token. It can be set once only.
pub fn set_token(store: &mut TokenStore, token: String)
    requires
        old(store)@ is None,
    ensures
        final(store)@ == Some(token@),
{
    store.token = Some(token);
}

/// Lets a request pass exactly if its token header holds the token.
/// `header` is the header where it is there and readable. Everything else
/// is answered with 401.
pub fn token_auth(token: &str, header: Option<&str>) -> (r: Result<(), u16>)
    ensures
        r == (if header matches Some(h) && h@ == token@ {
            Ok::<(), u16>(())
        } else {
            Err::<(), u16>(UNAUTHORIZED)
        }),
{
    match header {
        Some(h) => {
            if str_eq(h, token) {
                Ok(())
            } else {
                Err(UNAUTHORIZED)
            }
        },
        None => Err(UNAUTHORIZED),
    }
}

/// Calls `uuid::Uuid::new_v4` and writes the result in its hyphenated form,
/// which has 36 characters. The value itself is random.
#[verifier::external_body]
fn new_uuid() -> (r: String)
    ensures
        r@.len() == 36,
{
    uuid::Uuid::new_v4().to_string()
}

/// What a server finds out about its token when it starts.
#[derive(Debug)]
pub struct TokenInit {
    /// The configuration in force.
    pub cfg: RekcodCfg,
    /// Whether the configuration is new and has to be written.
    pub created: bool,
}

/// The configuration that a server writes for itself on its first start.
pub fn fresh_cfg(api_port: u16, token: String) -> (cfg: RekcodCfg)
    ensures
        cfg.host@ == LOCAL_HOST@ + decimal(api_port as nat),
        cfg.token@ == token@,
{
    let mut host = LOCAL_HOST.to_owned();
    append_decimal(&mut host, api_port as u64);
    RekcodCfg { host, token }
}

/// Decides the configuration in force: the one that was found, or else a new
/// one for this server with a token made for it.
pub fn init_rekcod_client_config(found: Option<RekcodCfg>, api_port: u16) -> (r: TokenInit)
    ensures
        match found {
            Some(c) => !r.created && r.cfg.host@ == c.host@ && r.cfg.token@ == c.token@,
            None => r.created && r.cfg.host@ == LOCAL_HOST@ + decimal(api_port as nat)
                && r.cfg.token@.len() == 36,
        },
{
    match found {
        Some(c) => TokenInit { cfg: c, created: false },
        None => TokenInit { cfg: fresh_cfg(api_port, new_uuid()), created: true },
    }
}

} // verus!
