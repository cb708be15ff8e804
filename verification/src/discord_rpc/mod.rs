//! Protocol rules for the local voice client: framing, requests, and the
//! connection's state machine.

pub mod client;
pub mod events;
pub mod ipc;
pub mod json;
pub mod laws;
pub mod oauth;
pub mod protocol;
pub mod token_store;
pub mod transport;
pub mod wire;

pub use client::DiscordRpcClient;
pub use events::{ChannelInfo, SpeakingEvent};
pub use token_store::DiscordTokens;

use crate::discord_rpc::events::ChannelInfoModel;
use vstd::prelude::*;

verus! {

/// What the whole program shares of the connection: the channel the user
/// is in, and whether the client is connected.
pub struct RpcShared {
    channel_info: Option<ChannelInfo>,
    connected: bool,
}

impl RpcShared {
    /// Whether the client is connected.
    pub closed spec fn connected(&self) -> bool {
        self.connected
    }

    /// The current channel, as plain values.
    pub closed spec fn channel(&self) -> Option<ChannelInfoModel> {
        match self.channel_info {
            Some(info) => Some(info@),
            None => None,
        }
    }

    /// Nothing is known yet: not connected, no channel.
    pub fn new() -> (shared: RpcShared)
        ensures
            !shared.connected(),
            shared.channel() is None,
    {
        RpcShared { channel_info: None, connected: false }
    }
}

/// Sets the connected flag.
pub fn set_rpc_connected(shared: &mut RpcShared, connected: bool)
    ensures
        final(shared).connected() == connected,
        final(shared).channel() == old(shared).channel(),
{
    shared.connected = connected;
}

/// Whether the client is connected.
pub fn is_rpc_connected(shared: &RpcShared) -> (connected: bool)
    ensures
        connected == shared.connected(),
{
    shared.connected
}

/// Makes `info` the current channel.
pub fn set_channel_info(shared: &mut RpcShared, info: ChannelInfo)
    ensures
        final(shared).channel() == Some(info@),
        final(shared).connected() == old(shared).connected(),
{
    shared.channel_info = Some(info);
}

/// Forgets the current channel.
pub fn clear_channel_info(shared: &mut RpcShared)
    ensures
        final(shared).channel() is None,
        final(shared).connected() == old(shared).connected(),
{
    shared.channel_info = None;
}

/// A copy of the current channel, if there is one.
pub fn get_channel_info(shared: &RpcShared) -> (info: Option<ChannelInfo>)
    ensures
        match info {
            Some(i) => Some(i@),
            None => None,
        } == shared.channel(),
{
    match &shared.channel_info {
        Some(info) => Some(info.copy()),
        None => None,
    }
}

/// What the user interface shows of the connection.
#[derive(Debug, PartialEq, Eq, Structural, Clone, Copy)]
pub enum Presence {
    InVoice,
    Idle,
    Disconnected,
}

/// In a voice channel when a channel is known; else idle when connected;
/// else disconnected.
pub fn presence(shared: &RpcShared) -> (p: Presence)
    ensures
        p == (if shared.channel() is Some {
            Presence::InVoice
        } else if shared.connected() {
            Presence::Idle
        } else {
            Presence::Disconnected
        }),
{
    if shared.channel_info.is_some() {
        Presence::InVoice
    } else if shared.connected {
        Presence::Idle
    } else {
        Presence::Disconnected
    }
}

} // verus!
