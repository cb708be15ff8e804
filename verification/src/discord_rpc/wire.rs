//! The names that requests carry on the wire.

use crate::discord_rpc::protocol::{Command, Subscription};
use vstd::prelude::*;

verus! {

/// The wire name of a command.
pub open spec fn command_text(cmd: Command) -> Seq<char> {
    match cmd {
        Command::Authorize => "AUTHORIZE"@,
        Command::Authenticate => "AUTHENTICATE"@,
        Command::GetSelectedVoiceChannel => "GET_SELECTED_VOICE_CHANNEL"@,
        Command::GetChannel => "GET_CHANNEL"@,
        Command::GetGuild => "GET_GUILD"@,
        Command::Subscribe => "SUBSCRIBE"@,
        Command::Unsubscribe => "UNSUBSCRIBE"@,
    }
}

/// The wire name of a subscribed event.
pub open spec fn subscription_text(evt: Subscription) -> Seq<char> {
    match evt {
        Subscription::VoiceChannelSelect => "VOICE_CHANNEL_SELECT"@,
        Subscription::SpeakingStart => "SPEAKING_START"@,
        Subscription::SpeakingStop => "SPEAKING_STOP"@,
    }
}

/// The key under which a command carries its one argument.
pub open spec fn argument_key_text(cmd: Command) -> Option<Seq<char>> {
    match cmd {
        Command::Authorize => Some("client_id"@),
        Command::Authenticate => Some("access_token"@),
        Command::GetSelectedVoiceChannel => None,
        Command::GetGuild => Some("guild_id"@),
        Command::GetChannel => Some("channel_id"@),
        Command::Subscribe => Some("channel_id"@),
        Command::Unsubscribe => Some("channel_id"@),
    }
}

/// The wire name of a command.
pub fn command_name(cmd: Command) -> (name: &'static str)
    ensures
        name@ == command_text(cmd),
{
    match cmd {
        Command::Authorize => "AUTHORIZE",
        Command::Authenticate => "AUTHENTICATE",
        Command::GetSelectedVoiceChannel => "GET_SELECTED_VOICE_CHANNEL",
        Command::GetChannel => "GET_CHANNEL",
        Command::GetGuild => "GET_GUILD",
        Command::Subscribe => "SUBSCRIBE",
        Command::Unsubscribe => "UNSUBSCRIBE",
    }
}

/// The wire name of a subscribed event.
pub fn subscription_name(evt: Subscription) -> (name: &'static str)
    ensures
        name@ == subscription_text(evt),
{
    match evt {
        Subscription::VoiceChannelSelect => "VOICE_CHANNEL_SELECT",
        Subscription::SpeakingStart => "SPEAKING_START",
        Subscription::SpeakingStop => "SPEAKING_STOP",
    }
}

/// The key under which a command carries its one argument, if it takes
/// one.
pub fn argument_key(cmd: Command) -> (key: Option<&'static str>)
    ensures
        match key {
            Some(k) => Some(k@),
            None => None,
        } == argument_key_text(cmd),
{
    match cmd {
        Command::Authorize => Some("client_id"),
        Command::Authenticate => Some("access_token"),
        Command::GetSelectedVoiceChannel => None,
        Command::GetGuild => Some("guild_id"),
        Command::GetChannel => Some("channel_id"),
        Command::Subscribe => Some("channel_id"),
        Command::Unsubscribe => Some("channel_id"),
    }
}

/// The scopes asked for when authorizing.
pub fn authorize_scopes() -> (scopes: Vec<&'static str>)
    ensures
        scopes@.len() == 2,
        scopes@[0]@ == "rpc"@,
        scopes@[1]@ == "identify"@,
{
    let mut scopes: Vec<&'static str> = Vec::new();
    scopes.push("rpc");
    scopes.push("identify");
    scopes
}

} // verus!
