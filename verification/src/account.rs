//! The authenticated principal, the external identity-provider payload, and
//! the provider configuration. The HTTP exchange itself lives outside the
//! library; these are the plain values it hands in and takes back.

use vstd::prelude::*;
use vstd::string::StringExecFns;

use crate::model::User;

verus! {

/// The principal resolved for one request.
#[derive(Debug)]
pub struct AuthState {
    pub user_id: String,
}

impl AuthState {
    pub fn new(user_id: &str) -> (r: AuthState)
        ensures
            r.user_id@ == user_id@,
    {
        AuthState { user_id: user_id.to_owned() }
    }

    pub fn get_user_id(&self) -> (r: &String)
        ensures
            r == &self.user_id,
    {
        &self.user_id
    }
}

impl Clone for AuthState {
    /// A cloned principal equals the original.
    fn clone(&self) -> (r: Self)
        ensures
            r == *self,
    {
        AuthState { user_id: self.user_id.clone() }
    }
}

/// The identity provider's description of a user.
#[derive(Debug)]
pub struct GithubUserResponse {
    pub id: String,
    pub name: String,
    pub avatar_url: String,
}

impl GithubUserResponse {
    pub fn get_id(&self) -> (r: &String)
        ensures
            r == &self.id,
    {
        &self.id
    }

    pub fn get_name(&self) -> (r: &String)
        ensures
            r == &self.name,
    {
        &self.name
    }

    pub fn get_avatar_url(&self) -> (r: &String)
        ensures
            r == &self.avatar_url,
    {
        &self.avatar_url
    }

    /// The user this provider payload stands for, field for field.
    pub fn into_user(self) -> (r: User)
        ensures
            r.id == self.id,
            r.name == self.name,
            r.avatar_url == self.avatar_url,
    {
        User { id: self.id, name: self.name, avatar_url: self.avatar_url }
    }
}

/// The identity provider's configuration, taken as explicit values; reading
/// them from the process environment is the caller's concern.
#[derive(Debug)]
pub struct Env {
    pub github_client_id: String,
    pub github_redirect_uri: String,
    pub github_client_secret: String,
    pub github_scope: String,
}

impl Env {
    /// Packs the provider configuration; the requested scope is fixed.
    pub fn new(client_id: &str, redirect_uri: &str, client_secret: &str) -> (r: Env)
        ensures
            r.github_client_id@ == client_id@,
            r.github_redirect_uri@ == redirect_uri@,
            r.github_client_secret@ == client_secret@,
            r.github_scope@ == "user:email"@,
    {
        Env {
            github_client_id: client_id.to_owned(),
            github_redirect_uri: redirect_uri.to_owned(),
            github_client_secret: client_secret.to_owned(),
            github_scope: String::from_str("user:email"),
        }
    }

    pub fn github_client_id(&self) -> (r: &String)
        ensures
            r == &self.github_client_id,
    {
        &self.github_client_id
    }

    pub fn github_redirect_uri(&self) -> (r: &String)
        ensures
            r == &self.github_redirect_uri,
    {
        &self.github_redirect_uri
    }

    pub fn github_client_secret(&self) -> (r: &String)
        ensures
            r == &self.github_client_secret,
    {
        &self.github_client_secret
    }

    pub fn github_scope(&self) -> (r: &String)
        ensures
            r == &self.github_scope,
    {
        &self.github_scope
    }
}

/// The provider's authorization URL for this configuration.
pub fn generate_github_url(env: &Env) -> (url: String)
    ensures
        url@ == "https://github.com/login/oauth/authorize?client_id="@
            + env.github_client_id@ + "&redirect_uri="@ + env.github_redirect_uri@ + "&scope="@
            + env.github_scope@,
{
    let mut url = String::from_str("https://github.com/login/oauth/authorize?client_id=");
    url.append(env.github_client_id.as_str());
    url.append("&redirect_uri=");
    url.append(env.github_redirect_uri.as_str());
    url.append("&scope=");
    url.append(env.github_scope.as_str());
    url
}

/// The session cookie that carries an access token.
pub fn access_token_cookie(token: &str) -> (c: String)
    ensures
        c@ == "access_token="@ + token@ + "; SameSite=Lax"@,
{
    let mut c = String::from_str("access_token=");
    c.append(token);
    c.append("; SameSite=Lax");
    c
}

} // verus!
