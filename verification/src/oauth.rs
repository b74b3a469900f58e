//! The settings of the login flow: which keys are required, what the others
//! default to, and which addresses are acceptable.

use vstd::prelude::*;
use vstd::string::*;

verus! {

/// Name of the cookie that carries the session.
pub const COOKIE_NAME: &'static str = "SESSION";

/// Sends a visitor without a session to the login page.
#[derive(Debug, Clone, Copy, PartialEq, Eq, Structural)]
pub struct AuthRedirect;

impl AuthRedirect {
    /// The path of the login page.
    pub fn location(&self) -> (path: &'static str)
        ensures
            path@ == "/auth/discord"@,
    {
        "/auth/discord"
    }
}

/// What the identity provider hands back to the `authorized` endpoint.
#[derive(Debug)]
pub struct AuthRequest {
    code: String,
    state: String,
}

/// The mathematical value of an [`AuthRequest`].
pub struct AuthRequestView {
    pub code: Seq<char>,
    pub state: Seq<char>,
}

impl View for AuthRequest {
    type V = AuthRequestView;

    closed spec fn view(&self) -> AuthRequestView {
        AuthRequestView { code: self.code@, state: self.state@ }
    }
}

impl AuthRequest {
    /// A request with the given authorization code and state.
    pub fn new(code: String, state: String) -> (r: Self)
        ensures
            r@ == (AuthRequestView { code: code@, state: state@ }),
    {
        AuthRequest { code, state }
    }

    /// The authorization code.
    pub fn code(&self) -> (code: &String)
        ensures
            code@ == self@.code,
    {
        &self.code
    }

    /// The state that came back with the code.
    pub fn state(&self) -> (state: &String)
        ensures
            state@ == self@.state,
    {
        &self.state
    }
}

/// Whether `url::Url::parse` accepts `text` as an absolute URL.
pub uninterp spec fn is_url(text: Seq<char>) -> bool;

/// Calls `url::Url::parse` on `text` and says whether it succeeded.  Trusted:
/// the answer is that parser's verdict on this text.
#[verifier::external_body]
fn parses_as_url(text: &str) -> (ok: bool)
    ensures
        ok == is_url(text@),
{
    url::Url::parse(text).is_ok()
}

/// Why the settings of the login flow are not usable.
#[derive(Debug, Clone, Copy, PartialEq, Eq, Structural)]
pub enum OauthError {
    /// `CLIENT_ID` is not set.
    MissingClientId,
    /// `CLIENT_SECRET` is not set.
    MissingClientSecret,
    /// The authorization address is no URL.
    InvalidAuthUrl,
    /// The token address is no URL.
    InvalidTokenUrl,
    /// The redirection address is no URL.
    InvalidRedirectUrl,
}

impl OauthError {
    /// The text of the error.
    pub fn message(&self) -> (text: &'static str)
        ensures
            text@ == match *self {
                OauthError::MissingClientId => "Missing CLIENT_ID!"@,
                OauthError::MissingClientSecret => "Missing CLIENT_SECRET!"@,
                OauthError::InvalidAuthUrl => "failed to create new authorization server URL"@,
                OauthError::InvalidTokenUrl => "failed to create new token endpoint URL"@,
                OauthError::InvalidRedirectUrl => "failed to create new redirection URL"@,
            },
    {
        match self {
            OauthError::MissingClientId => "Missing CLIENT_ID!",
            OauthError::MissingClientSecret => "Missing CLIENT_SECRET!",
            OauthError::InvalidAuthUrl => "failed to create new authorization server URL",
            OauthError::InvalidTokenUrl => "failed to create new token endpoint URL",
            OauthError::InvalidRedirectUrl => "failed to create new redirection URL",
        }
    }
}

/// The settings of the login flow.
#[derive(Debug)]
pub struct OauthSettings {
    pub client_id: String,
    pub client_secret: String,
    pub redirect_url: String,
    pub auth_url: String,
    pub token_url: String,
}

/// The mathematical value of [`OauthSettings`].
pub struct OauthSettingsView {
    pub client_id: Seq<char>,
    pub client_secret: Seq<char>,
    pub redirect_url: Seq<char>,
    pub auth_url: Seq<char>,
    pub token_url: Seq<char>,
}

impl View for OauthSettings {
    type V = OauthSettingsView;

    open spec fn view(&self) -> OauthSettingsView {
        OauthSettingsView {
            client_id: self.client_id@,
            client_secret: self.client_secret@,
            redirect_url: self.redirect_url@,
            auth_url: self.auth_url@,
            token_url: self.token_url@,
        }
    }
}

/// The view of an optional text.
pub open spec fn text_view(value: Option<String>) -> Option<Seq<char>> {
    match value {
        Some(s) => Some(s@),
        None => None,
    }
}

/// `value` where it is set, else `fallback`.
pub open spec fn or_default(value: Option<Seq<char>>, fallback: Seq<char>) -> Seq<char> {
    match value {
        Some(s) => s,
        None => fallback,
    }
}

/// The settings that the given values of `CLIENT_ID`, `CLIENT_SECRET`,
/// `REDIRECT_URL`, `AUTH_URL` and `TOKEN_URL` stand for, before the
/// addresses are looked at.  The first two are required, in that order; each
/// of the others has a default.
pub open spec fn settings_of(
    client_id: Option<Seq<char>>,
    client_secret: Option<Seq<char>>,
    redirect_url: Option<Seq<char>>,
    auth_url: Option<Seq<char>>,
    token_url: Option<Seq<char>>,
) -> Result<OauthSettingsView, OauthError> {
    if client_id is None {
        Err(OauthError::MissingClientId)
    } else if client_secret is None {
        Err(OauthError::MissingClientSecret)
    } else {
        Ok(
            OauthSettingsView {
                client_id: client_id->0,
                client_secret: client_secret->0,
                redirect_url: or_default(redirect_url, "http://127.0.0.1:3000/auth/authorized"@),
                auth_url: or_default(
                    auth_url,
                    "https://discord.com/api/oauth2/authorize?response_type=code"@,
                ),
                token_url: or_default(token_url, "https://discord.com/api/oauth2/token"@),
            },
        )
    }
}

/// The first address that is no URL, looked for in the order authorization,
/// token, redirection.
pub open spec fn first_bad_address(auth_ok: bool, token_ok: bool, redirect_ok: bool) -> Option<
    OauthError,
> {
    if !auth_ok {
        Some(OauthError::InvalidAuthUrl)
    } else if !token_ok {
        Some(OauthError::InvalidTokenUrl)
    } else if !redirect_ok {
        Some(OauthError::InvalidRedirectUrl)
    } else {
        None
    }
}

/// The view of a result that holds settings.
pub open spec fn settings_view(r: Result<OauthSettings, OauthError>) -> Result<
    OauthSettingsView,
    OauthError,
> {
    match r {
        Ok(s) => Ok(s@),
        Err(e) => Err(e),
    }
}

fn text_or(value: Option<String>, fallback: &str) -> (text: String)
    ensures
        text@ == or_default(text_view(value), fallback@),
{
    match value {
        Some(s) => s,
        None => fallback.to_owned(),
    }
}

impl OauthSettings {
    /// The settings that the given values stand for, with the defaults filled
    /// in; an error where a required value is missing.
    pub fn from_values(
        client_id: Option<String>,
        client_secret: Option<String>,
        redirect_url: Option<String>,
        auth_url: Option<String>,
        token_url: Option<String>,
    ) -> (r: Result<OauthSettings, OauthError>)
        ensures
            settings_view(r) == settings_of(
                text_view(client_id),
                text_view(client_secret),
                text_view(redirect_url),
                text_view(auth_url),
                text_view(token_url),
            ),
    {
        let client_id = match client_id {
            Some(id) => id,
            None => {
                return Err(OauthError::MissingClientId);
            },
        };
        let client_secret = match client_secret {
            Some(secret) => secret,
            None => {
                return Err(OauthError::MissingClientSecret);
            },
        };
        Ok(
            OauthSettings {
                client_id,
                client_secret,
                redirect_url: text_or(redirect_url, "http://127.0.0.1:3000/auth/authorized"),
                auth_url: text_or(
                    auth_url,
                    "https://discord.com/api/oauth2/authorize?response_type=code",
                ),
                token_url: text_or(token_url, "https://discord.com/api/oauth2/token"),
            },
        )
    }

    /// These settings, where all three addresses were found to be URLs; else
    /// the error of the first that was not.
    pub fn checked(self, auth_ok: bool, token_ok: bool, redirect_ok: bool) -> (r: Result<
        OauthSettings,
        OauthError,
    >)
        ensures
            match first_bad_address(auth_ok, token_ok, redirect_ok) {
                Some(e) => r == Err::<OauthSettings, _>(e),
                None => r == Ok::<_, OauthError>(self),
            },
    {
        if !auth_ok {
            Err(OauthError::InvalidAuthUrl)
        } else if !token_ok {
            Err(OauthError::InvalidTokenUrl)
        } else if !redirect_ok {
            Err(OauthError::InvalidRedirectUrl)
        } else {
            Ok(self)
        }
    }
}

/// The settings of the login flow, from the values of `CLIENT_ID`,
/// `CLIENT_SECRET`, `REDIRECT_URL`, `AUTH_URL` and `TOKEN_URL` (`None` for
/// one that is not set).  A missing required value is reported first; then
/// the addresses are held to be URLs, in the order authorization, token,
/// redirection.
pub fn oauth_client(
    client_id: Option<String>,
    client_secret: Option<String>,
    redirect_url: Option<String>,
    auth_url: Option<String>,
    token_url: Option<String>,
) -> (r: Result<OauthSettings, OauthError>)
    ensures
        settings_view(r) == match settings_of(
            text_view(client_id),
            text_view(client_secret),
            text_view(redirect_url),
            text_view(auth_url),
            text_view(token_url),
        ) {
            Err(e) => Err(e),
            Ok(s) => match first_bad_address(
                is_url(s.auth_url),
                is_url(s.token_url),
                is_url(s.redirect_url),
            ) {
                Some(e) => Err(e),
                None => Ok(s),
            },
        },
{
    match OauthSettings::from_values(client_id, client_secret, redirect_url, auth_url, token_url) {
        Err(e) => Err(e),
        Ok(settings) => {
            let auth_ok = parses_as_url(settings.auth_url.as_str());
            let token_ok = parses_as_url(settings.token_url.as_str());
            let redirect_ok = parses_as_url(settings.redirect_url.as_str());
            settings.checked(auth_ok, token_ok, redirect_ok)
        },
    }
}

/// The `Set-Cookie` value that opens a session: the session cookie, sent
/// with same-site requests and top-level navigation, for the whole site.
pub fn session_cookie(cookie: &str) -> (header: String)
    ensures
        header@ == COOKIE_NAME@ + "="@ + cookie@ + "; SameSite=Lax; Path=/"@,
{
    let mut header = COOKIE_NAME.to_owned();
    header.append("=");
    header.append(cookie);
    header.append("; SameSite=Lax; Path=/");
    header
}

} // verus!
