use eflow_balance::credentials::{
    get_api_base_url, get_api_key, get_oauth_token, CredentialsFile, KeychainRead, OAuthCredentials,
};

fn s(v: &str) -> Option<String> {
    Some(v.to_string())
}

fn creds(token: &str) -> Option<CredentialsFile> {
    Some(CredentialsFile {
        claude_ai_oauth: Some(OAuthCredentials {
            access_token: token.to_string(),
            refresh_token: None,
            expires_at: None,
            scopes: None,
            subscription_type: None,
        }),
    })
}

#[test]
fn api_key_order() {
    assert_eq!(get_api_key(s("a"), s("b"), s("c"), s("d")), s("a"));
    assert_eq!(get_api_key(s(""), s("b"), s("c"), s("d")), s("b"));
    assert_eq!(get_api_key(None, s(""), s("c"), s("d")), s("c"));
    assert_eq!(get_api_key(None, None, s(""), s("d")), s("d"));
    assert_eq!(get_api_key(None, None, None, s("")), None);
}

#[test]
fn base_url_order_and_trimming() {
    assert_eq!(get_api_base_url(s("https://a.example/"), s("https://b.example")), s("https://a.example"));
    assert_eq!(get_api_base_url(s(""), s("https://b.example///")), s("https://b.example"));
    assert_eq!(get_api_base_url(None, None), None);
}

#[test]
fn oauth_token_sources() {
    assert_eq!(get_oauth_token(true, KeychainRead::Answered(creds("kc")), creds("file")), s("kc"));
    assert_eq!(get_oauth_token(true, KeychainRead::Answered(None), creds("file")), None);
    assert_eq!(get_oauth_token(true, KeychainRead::Failed, creds("file")), s("file"));
    assert_eq!(get_oauth_token(false, KeychainRead::Answered(creds("kc")), creds("file")), s("file"));
    assert_eq!(get_oauth_token(false, KeychainRead::Failed, Some(CredentialsFile { claude_ai_oauth: None })), None);
}
