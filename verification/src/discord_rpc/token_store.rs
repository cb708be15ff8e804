//! The tokens kept between runs for a silent reconnect.

use vstd::prelude::*;

verus! {

/// What is persisted of a connection.
#[derive(Debug)]
pub struct DiscordTokens {
    pub client_id: String,
    pub client_secret: String,
    pub rpc_origin: String,
    pub refresh_token: String,
}

/// The tokens to persist after a connection was set up: the earlier ones
/// with the refresh token that was issued; nothing when none was issued.
pub fn tokens_to_save(
    client_id: String,
    client_secret: String,
    rpc_origin: String,
    issued: Option<String>,
) -> (tokens: Option<DiscordTokens>)
    ensures
        tokens is Some <==> issued is Some,
        match tokens {
            Some(t) => t.client_id@ == client_id@ && t.client_secret@ == client_secret@
                && t.rpc_origin@ == rpc_origin@ && t.refresh_token@ == issued->0@,
            None => true,
        },
{
    match issued {
        Some(refresh_token) => Some(
            DiscordTokens { client_id, client_secret, rpc_origin, refresh_token },
        ),
        None => None,
    }
}

} // verus!
