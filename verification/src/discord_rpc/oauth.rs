//! The two exchanges at the OAuth token endpoint: an authorization code
//! for tokens, and a refresh token for a new access token.

use crate::labels::opt_text;
use vstd::prelude::*;
use vstd::string::StringExecFns;

verus! {

/// What the token endpoint answered, as far as the client reads it.
#[derive(Debug)]
pub struct TokenResponse {
    /// Whether the status was a success.
    pub success: bool,
    /// The status as text.
    pub status: String,
    /// The body of an answer that was no success.
    pub body: String,
    pub access_token: Option<String>,
    pub refresh_token: Option<String>,
}

/// One field of a form.
#[derive(Debug)]
pub struct FormField {
    pub name: String,
    pub value: String,
}

/// The fields of a form as pairs of texts.
pub open spec fn form_view(form: Seq<FormField>) -> Seq<(Seq<char>, Seq<char>)> {
    Seq::new(form.len(), |i: int| (form[i].name@, form[i].value@))
}

fn field(name: &str, value: &str) -> (f: FormField)
    ensures
        f.name@ == name@,
        f.value@ == value@,
{
    FormField { name: name.to_owned(), value: value.to_owned() }
}

/// The form that exchanges a refresh token.
pub fn refresh_form(client_id: &str, client_secret: &str, redirect_uri: &str, refresh_token: &str) -> (form:
    Vec<FormField>)
    ensures
        form_view(form@) == seq![
            ("grant_type"@, "refresh_token"@),
            ("refresh_token"@, refresh_token@),
            ("client_id"@, client_id@),
            ("client_secret"@, client_secret@),
            ("redirect_uri"@, redirect_uri@),
        ],
{
    let mut form: Vec<FormField> = Vec::new();
    form.push(field("grant_type", "refresh_token"));
    form.push(field("refresh_token", refresh_token));
    form.push(field("client_id", client_id));
    form.push(field("client_secret", client_secret));
    form.push(field("redirect_uri", redirect_uri));
    proof {
        assert(form_view(form@) =~= seq![
            ("grant_type"@, "refresh_token"@),
            ("refresh_token"@, refresh_token@),
            ("client_id"@, client_id@),
            ("client_secret"@, client_secret@),
            ("redirect_uri"@, redirect_uri@),
        ]);
    }
    form
}

/// The form that exchanges an authorization code.
pub fn code_form(client_id: &str, client_secret: &str, redirect_uri: &str, code: &str) -> (form: Vec<
    FormField,
>)
    ensures
        form_view(form@) == seq![
            ("grant_type"@, "authorization_code"@),
            ("code"@, code@),
            ("client_id"@, client_id@),
            ("client_secret"@, client_secret@),
            ("redirect_uri"@, redirect_uri@),
        ],
{
    let mut form: Vec<FormField> = Vec::new();
    form.push(field("grant_type", "authorization_code"));
    form.push(field("code", code));
    form.push(field("client_id", client_id));
    form.push(field("client_secret", client_secret));
    form.push(field("redirect_uri", redirect_uri));
    proof {
        assert(form_view(form@) =~= seq![
            ("grant_type"@, "authorization_code"@),
            ("code"@, code@),
            ("client_id"@, client_id@),
            ("client_secret"@, client_secret@),
            ("redirect_uri"@, redirect_uri@),
        ]);
    }
    form
}

/// What is said when a refresh is refused.
pub open spec fn refresh_refused_text(status: Seq<char>, body: Seq<char>) -> Seq<char> {
    "Token refresh failed ("@ + status + "): "@ + body
}

/// What is said when a code exchange is refused.
pub open spec fn exchange_refused_text(
    status: Seq<char>,
    body: Seq<char>,
    redirect_uri: Seq<char>,
) -> Seq<char> {
    "Token exchange failed ("@ + status + "): "@ + body
        + ". Ensure OAuth2 Redirect URI is exactly "@ + redirect_uri + " in your Discord app."@
}

/// What is said when a refresh answer holds no access token.
pub open spec fn refresh_without_token_text() -> Seq<char> {
    "No access_token in refresh response"@
}

/// What is said when an exchange answer holds no access token.
pub open spec fn exchange_without_token_text() -> Seq<char> {
    "No access_token in response. Check that Redirect URI in OAuth2 matches exactly (e.g. https://localhost)."@
}

/// The tokens of a successful answer.
#[derive(Debug)]
pub struct Tokens {
    pub access_token: String,
    pub refresh_token: Option<String>,
}

/// Reads the answer to a refresh: the new access token, and the rotated
/// refresh token if one was issued. An answer that is no success, or that
/// holds no access token, is an error.
pub fn refresh_access_token(response: TokenResponse) -> (tokens: Result<Tokens, String>)
    ensures
        tokens is Ok <==> (response.success && response.access_token is Some),
        match tokens {
            Ok(t) => t.access_token@ == response.access_token->0@ && opt_text(t.refresh_token)
                == opt_text(response.refresh_token),
            Err(msg) => msg@ == (if !response.success {
                refresh_refused_text(response.status@, response.body@)
            } else {
                refresh_without_token_text()
            }),
        },
{
    if !response.success {
        let mut msg: String = "Token refresh failed (".to_owned();
        msg.append(response.status.as_str());
        msg.append("): ");
        msg.append(response.body.as_str());
        return Err(msg);
    }
    match response.access_token {
        Some(access_token) => Ok(Tokens { access_token, refresh_token: response.refresh_token }),
        None => Err("No access_token in refresh response".to_owned()),
    }
}

/// Reads the answer to a code exchange: the access token, and the refresh
/// token if one was issued. An answer that is no success, or that holds no
/// access token, is an error.
pub fn exchange_code(response: TokenResponse, redirect_uri: &str) -> (tokens: Result<Tokens, String>)
    ensures
        tokens is Ok <==> (response.success && response.access_token is Some),
        match tokens {
            Ok(t) => t.access_token@ == response.access_token->0@ && opt_text(t.refresh_token)
                == opt_text(response.refresh_token),
            Err(msg) => msg@ == (if !response.success {
                exchange_refused_text(response.status@, response.body@, redirect_uri@)
            } else {
                exchange_without_token_text()
            }),
        },
{
    if !response.success {
        let mut msg: String = "Token exchange failed (".to_owned();
        msg.append(response.status.as_str());
        msg.append("): ");
        msg.append(response.body.as_str());
        msg.append(". Ensure OAuth2 Redirect URI is exactly ");
        msg.append(redirect_uri);
        msg.append(" in your Discord app.");
        return Err(msg);
    }
    match response.access_token {
        Some(access_token) => Ok(Tokens { access_token, refresh_token: response.refresh_token }),
        None => Err(
            "No access_token in response. Check that Redirect URI in OAuth2 matches exactly (e.g. https://localhost).".to_owned(),
        ),
    }
}

} // verus!
