//! Choosing the credential and the service address among the places that
//! may hold them. Reading those places is left to the caller.

use vstd::prelude::*;
use crate::client::trim_slashes;

verus! {

/// Stored OAuth credentials of the account.
#[derive(Clone, Debug)]
pub struct OAuthCredentials {
    pub access_token: String,
    pub refresh_token: Option<String>,
    pub expires_at: Option<u64>,
    pub scopes: Option<Vec<String>>,
    pub subscription_type: Option<String>,
}

/// The credentials document.
#[derive(Clone, Debug)]
pub struct CredentialsFile {
    pub claude_ai_oauth: Option<OAuthCredentials>,
}

/// What a query of the system keychain gave.
#[derive(Clone, Debug)]
pub enum KeychainRead {
    /// The query could not run or failed.
    Failed,
    /// The query ran; the document it returned, if it was one.
    Answered(Option<CredentialsFile>),
}

/// The first of the values that is set and not empty.
pub open spec fn first_nonempty(values: Seq<Option<String>>) -> Option<String>
    decreases values.len(),
{
    if values.len() == 0 {
        None
    } else if values[0] matches Some(v) && v@.len() > 0 {
        values[0]
    } else {
        first_nonempty(values.drop_first())
    }
}

fn nonempty(v: Option<String>) -> (r: Option<String>)
    ensures
        r == (if v matches Some(s) && s@.len() > 0 { v } else { None }),
{
    match v {
        Some(s) => if s.as_str().is_empty() { None } else { Some(s) },
        None => None,
    }
}

/// The access token that a credentials document holds.
pub open spec fn oauth_token_of(file: Option<CredentialsFile>) -> Option<String> {
    match file {
        Some(f) => match f.claude_ai_oauth {
            Some(o) => Some(o.access_token),
            None => None,
        },
        None => None,
    }
}

fn token_of(file: Option<CredentialsFile>) -> (r: Option<String>)
    ensures
        r == oauth_token_of(file),
{
    match file {
        Some(f) => match f.claude_ai_oauth {
            Some(o) => Some(o.access_token),
            None => None,
        },
        None => None,
    }
}

/// The API credential: from the settings the auth token, then the API key;
/// then the same two from the environment; the first that is not empty.
pub fn get_api_key(
    settings_auth_token: Option<String>,
    settings_api_key: Option<String>,
    env_auth_token: Option<String>,
    env_api_key: Option<String>,
) -> (r: Option<String>)
    ensures
        r == first_nonempty(seq![settings_auth_token, settings_api_key, env_auth_token, env_api_key]),
{
    proof {
        let s = seq![settings_auth_token, settings_api_key, env_auth_token, env_api_key];
        assert(s.drop_first() =~= seq![settings_api_key, env_auth_token, env_api_key]);
        assert(s.drop_first().drop_first() =~= seq![env_auth_token, env_api_key]);
        assert(s.drop_first().drop_first().drop_first() =~= seq![env_api_key]);
        assert(seq![env_api_key].drop_first() =~= Seq::<Option<String>>::empty());
        reveal_with_fuel(first_nonempty, 5);
    }
    let a = nonempty(settings_auth_token);
    if a.is_some() {
        return a;
    }
    let b = nonempty(settings_api_key);
    if b.is_some() {
        return b;
    }
    let c = nonempty(env_auth_token);
    if c.is_some() {
        return c;
    }
    nonempty(env_api_key)
}

/// The service address: from the settings, else from the environment, the
/// first that is not empty, without trailing slashes.
pub fn get_api_base_url(settings_base_url: Option<String>, env_base_url: Option<String>) -> (r: Option<String>)
    ensures
        match first_nonempty(seq![settings_base_url, env_base_url]) {
            Some(u) => r matches Some(t) && t@ == trim_slashes(u@),
            None => r is None,
        },
{
    proof {
        let s = seq![settings_base_url, env_base_url];
        assert(s.drop_first() =~= seq![env_base_url]);
        assert(seq![env_base_url].drop_first() =~= Seq::<Option<String>>::empty());
        reveal_with_fuel(first_nonempty, 3);
    }
    let chosen = match nonempty(settings_base_url) {
        Some(u) => Some(u),
        None => nonempty(env_base_url),
    };
    match chosen {
        Some(u) => Some(crate::client::trim_trailing_slashes(u.as_str())),
        None => None,
    }
}

/// The OAuth access token. On macOS the keychain answers first, and the
/// credentials file only when the keychain query failed; elsewhere the file
/// answers.
pub fn get_oauth_token(is_macos: bool, keychain: KeychainRead, file: Option<CredentialsFile>) -> (r: Option<String>)
    ensures
        r == (if is_macos {
            match keychain {
                KeychainRead::Answered(answered) => oauth_token_of(answered),
                KeychainRead::Failed => oauth_token_of(file),
            }
        } else {
            oauth_token_of(file)
        }),
{
    if is_macos {
        match keychain {
            KeychainRead::Answered(answered) => token_of(answered),
            KeychainRead::Failed => token_of(file),
        }
    } else {
        token_of(file)
    }
}

} // verus!
