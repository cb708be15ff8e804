use d_scribe::discord_rpc::oauth::{
    code_form, exchange_code, refresh_access_token, refresh_form, FormField, TokenResponse,
};
use d_scribe::discord_rpc::protocol::{Command, Subscription};
use d_scribe::discord_rpc::wire::{
    argument_key, authorize_scopes, command_name, subscription_name,
};

fn pairs(form: Vec<FormField>) -> Vec<(String, String)> {
    form.into_iter().map(|f| (f.name, f.value)).collect()
}

fn pair(name: &str, value: &str) -> (String, String) {
    (name.to_string(), value.to_string())
}

fn response(success: bool, access: Option<&str>, refresh: Option<&str>) -> TokenResponse {
    TokenResponse {
        success,
        status: "401 Unauthorized".to_string(),
        body: "{\"error\":\"invalid_grant\"}".to_string(),
        access_token: access.map(String::from),
        refresh_token: refresh.map(String::from),
    }
}

#[test]
fn token_forms() {
    assert_eq!(
        pairs(refresh_form("id", "secret", "https://localhost", "r-token")),
        vec![
            pair("grant_type", "refresh_token"),
            pair("refresh_token", "r-token"),
            pair("client_id", "id"),
            pair("client_secret", "secret"),
            pair("redirect_uri", "https://localhost"),
        ]
    );
    assert_eq!(
        pairs(code_form("id", "secret", "https://localhost", "the-code")),
        vec![
            pair("grant_type", "authorization_code"),
            pair("code", "the-code"),
            pair("client_id", "id"),
            pair("client_secret", "secret"),
            pair("redirect_uri", "https://localhost"),
        ]
    );
}

#[test]
fn refresh_answers() {
    let tokens = refresh_access_token(response(true, Some("a"), Some("r"))).unwrap();
    assert_eq!(tokens.access_token, "a");
    assert_eq!(tokens.refresh_token, Some("r".to_string()));
    let tokens = refresh_access_token(response(true, Some("a"), None)).unwrap();
    assert_eq!(tokens.refresh_token, None);
    assert_eq!(
        refresh_access_token(response(false, Some("a"), None)).unwrap_err(),
        "Token refresh failed (401 Unauthorized): {\"error\":\"invalid_grant\"}"
    );
    assert_eq!(
        refresh_access_token(response(true, None, Some("r"))).unwrap_err(),
        "No access_token in refresh response"
    );
}

#[test]
fn exchange_answers() {
    let tokens = exchange_code(response(true, Some("a"), Some("r")), "https://localhost").unwrap();
    assert_eq!(tokens.access_token, "a");
    assert_eq!(tokens.refresh_token, Some("r".to_string()));
    assert_eq!(
        exchange_code(response(false, None, None), "https://localhost").unwrap_err(),
        "Token exchange failed (401 Unauthorized): {\"error\":\"invalid_grant\"}. Ensure OAuth2 Redirect URI is exactly https://localhost in your Discord app."
    );
    assert_eq!(
        exchange_code(response(true, None, None), "https://localhost").unwrap_err(),
        "No access_token in response. Check that Redirect URI in OAuth2 matches exactly (e.g. https://localhost)."
    );
}

#[test]
fn wire_names() {
    assert_eq!(command_name(Command::Authorize), "AUTHORIZE");
    assert_eq!(command_name(Command::Authenticate), "AUTHENTICATE");
    assert_eq!(command_name(Command::GetSelectedVoiceChannel), "GET_SELECTED_VOICE_CHANNEL");
    assert_eq!(command_name(Command::GetChannel), "GET_CHANNEL");
    assert_eq!(command_name(Command::GetGuild), "GET_GUILD");
    assert_eq!(command_name(Command::Subscribe), "SUBSCRIBE");
    assert_eq!(command_name(Command::Unsubscribe), "UNSUBSCRIBE");
    assert_eq!(subscription_name(Subscription::VoiceChannelSelect), "VOICE_CHANNEL_SELECT");
    assert_eq!(subscription_name(Subscription::SpeakingStart), "SPEAKING_START");
    assert_eq!(subscription_name(Subscription::SpeakingStop), "SPEAKING_STOP");
    assert_eq!(argument_key(Command::Authorize), Some("client_id"));
    assert_eq!(argument_key(Command::Authenticate), Some("access_token"));
    assert_eq!(argument_key(Command::GetSelectedVoiceChannel), None);
    assert_eq!(argument_key(Command::GetGuild), Some("guild_id"));
    assert_eq!(argument_key(Command::GetChannel), Some("channel_id"));
    assert_eq!(argument_key(Command::Subscribe), Some("channel_id"));
    assert_eq!(argument_key(Command::Unsubscribe), Some("channel_id"));
    assert_eq!(authorize_scopes(), vec!["rpc", "identify"]);
}
