//! The connection to the voice client as a mathematical state machine:
//! what each incoming payload does to the connection, and what the client
//! is to do in answer.

use crate::discord_rpc::events::{channel_info_of, ChannelInfoModel, VoiceChannelModel};
use crate::text::contains_text;
use vstd::prelude::*;

verus! {

/// The commands the client sends.
#[derive(Debug, PartialEq, Eq, Structural, Clone, Copy)]
pub enum Command {
    Authorize,
    Authenticate,
    GetSelectedVoiceChannel,
    GetChannel,
    GetGuild,
    Subscribe,
    Unsubscribe,
}

/// The events the client subscribes to.
#[derive(Debug, PartialEq, Eq, Structural, Clone, Copy)]
pub enum Subscription {
    VoiceChannelSelect,
    SpeakingStart,
    SpeakingStop,
}

/// What an incoming payload's event name stands for.
#[derive(Debug, PartialEq, Eq, Structural, Clone, Copy)]
pub enum EventKind {
    Ready,
    Error,
    VoiceChannelSelect,
    SpeakingStart,
    SpeakingStop,
    Other,
}

/// Where the connection stands in its lifecycle, step by step.
#[derive(Debug, PartialEq, Eq, Structural, Clone, Copy)]
pub enum Phase {
    /// Nothing is expected: not connected, or torn down.
    Idle,
    AwaitReady,
    AwaitAuthorize,
    AwaitToken,
    AwaitAuthenticate,
    AwaitChannel,
    AwaitGuild,
    /// Subscribed; events are dispatched.
    Running,
}

/// The connection state as plain values.
pub enum StateModel {
    Disconnected,
    Connecting,
    AwaitingAuth,
    Authenticated,
    Subscribed,
    Error(Seq<char>),
}

/// A request as plain values. `arg` is the one argument the command
/// takes: the client id, the access token, the channel id or the guild id.
pub struct RequestModel {
    pub cmd: Command,
    pub nonce: Seq<char>,
    pub evt: Option<Subscription>,
    pub arg: Option<Seq<char>>,
}

/// What the client is to do, as plain values.
pub enum ActionModel {
    Send(RequestModel),
    ExchangeCode(Seq<char>),
    Publish(ChannelInfoModel),
    ClearChannel,
    Speaking { start: bool, user_id: Seq<char> },
    Fulfill { nonce: Seq<char>, answered: bool },
    Ready(Option<Seq<char>>),
    Connected(bool),
    Fail(Seq<char>),
}

/// What the client reads of an incoming payload.
pub struct PayloadModel {
    pub evt: Option<Seq<char>>,
    pub nonce: Option<Seq<char>>,
    pub has_data: bool,
    pub message: Option<Seq<char>>,
    pub code: Option<Seq<char>>,
    pub user_id: Option<Seq<char>>,
    pub auth_user_id: Option<Seq<char>>,
    pub channel_id: Option<Seq<char>>,
    pub channel: Option<VoiceChannelModel>,
    pub name: Option<Seq<char>>,
}

/// The awaited answer to a channel lookup, and the channel to leave.
pub struct RefreshModel {
    pub nonce: Seq<char>,
    pub old_channel: Option<Seq<char>>,
}

/// Four fresh nonces for the requests one step may send.
pub struct NonceModel {
    pub a: Seq<char>,
    pub b: Seq<char>,
    pub c: Seq<char>,
    pub d: Seq<char>,
}

/// The connection as plain values.
pub struct CoreModel {
    pub state: StateModel,
    pub phase: Phase,
    pub pending: Seq<Seq<char>>,
    pub refresh: Option<RefreshModel>,
    pub current_channel: Option<Seq<char>>,
    pub self_user: Option<Seq<char>>,
    pub client_id: Seq<char>,
    pub access_token: Option<Seq<char>>,
    pub refresh_token: Option<Seq<char>>,
    pub held_info: Option<ChannelInfoModel>,
}

/// A step's outcome: the next connection and the actions, in order.
pub struct StepModel {
    pub core: CoreModel,
    pub actions: Seq<ActionModel>,
}

/// What an event name stands for; names are matched letter for letter.
pub open spec fn event_kind(evt: Option<Seq<char>>) -> EventKind {
    match evt {
        Some(e) => if e == "READY"@ {
            EventKind::Ready
        } else if e == "ERROR"@ {
            EventKind::Error
        } else if e == "VOICE_CHANNEL_SELECT"@ {
            EventKind::VoiceChannelSelect
        } else if e == "SPEAKING_START"@ {
            EventKind::SpeakingStart
        } else if e == "SPEAKING_STOP"@ {
            EventKind::SpeakingStop
        } else {
            EventKind::Other
        },
        None => EventKind::Other,
    }
}

/// The diagnostic that reports a refused origin.
pub open spec fn origin_marker() -> Seq<char> {
    "Invalid Origin"@
}

/// The guidance added to that diagnostic.
pub open spec fn origin_guidance() -> Seq<char> {
    ". Add https://localhost to your app's RPC Origins in the Discord Developer Portal. RPC Origin is separate from OAuth2 Redirects. If you don't see an RPC Origin field, your app may not have RPC access (RPC is in private beta)."@
}

/// The message of an error payload that carries none.
pub open spec fn unknown_error() -> Seq<char> {
    "Unknown error"@
}

/// What is said when authorization gave no code.
pub open spec fn no_code_error() -> Seq<char> {
    "No authorization code. Did you approve in the Discord popup? If no popup appeared, check RPC Origin and Redirect URI."@
}

/// What is said when the user is in no voice channel.
pub open spec fn no_channel_error() -> Seq<char> {
    "Not in a voice channel. Join a voice channel in Discord first, then click Connect."@
}

/// What is said when the transport closes before READY.
pub open spec fn closed_before_ready_error() -> Seq<char> {
    "Connection closed before READY"@
}

/// What is said when the transport closes while connecting.
pub open spec fn closed_error() -> Seq<char> {
    "Connection closed by Discord"@
}

/// An error text with guidance added when it reports an invalid origin.
pub open spec fn enhanced(err: Seq<char>) -> Seq<char> {
    if contains_text(err, origin_marker()) {
        err + origin_guidance()
    } else {
        err
    }
}

/// The message of an error payload.
pub open spec fn error_text(p: PayloadModel) -> Seq<char> {
    match p.message {
        Some(m) => m,
        None => unknown_error(),
    }
}

/// Index of the first occurrence of `nonce` at or after `from`; the
/// list's length when there is none.
pub open spec fn nonce_index(pending: Seq<Seq<char>>, nonce: Seq<char>, from: int) -> int
    decreases pending.len() - from,
{
    if from < 0 || from >= pending.len() {
        pending.len() as int
    } else if pending[from] == nonce {
        from
    } else {
        nonce_index(pending, nonce, from + 1)
    }
}

/// Whether a request with this nonce awaits its answer.
pub open spec fn awaits(pending: Seq<Seq<char>>, nonce: Seq<char>) -> bool {
    nonce_index(pending, nonce, 0) < pending.len()
}

/// The pending nonces after `nonce` is stored: it is held once.
pub open spec fn stored(pending: Seq<Seq<char>>, nonce: Seq<char>) -> Seq<Seq<char>> {
    if awaits(pending, nonce) {
        pending
    } else {
        pending.push(nonce)
    }
}

/// The pending nonces after the answer to `nonce` has arrived.
pub open spec fn answered(pending: Seq<Seq<char>>, nonce: Seq<char>) -> Seq<Seq<char>> {
    if awaits(pending, nonce) {
        pending.remove(nonce_index(pending, nonce, 0))
    } else {
        pending
    }
}

/// Whether the payload answers a pending request.
pub open spec fn answers(c: CoreModel, p: PayloadModel) -> bool {
    match p.nonce {
        Some(n) => awaits(c.pending, n),
        None => false,
    }
}

/// The connection after the answer that the payload carries is taken off
/// the pending list.
pub open spec fn settle(c: CoreModel, p: PayloadModel) -> CoreModel {
    match p.nonce {
        Some(n) => CoreModel { pending: answered(c.pending, n), ..c },
        None => c,
    }
}

/// The action that sends a request.
pub open spec fn request(
    cmd: Command,
    nonce: Seq<char>,
    evt: Option<Subscription>,
    arg: Option<Seq<char>>,
) -> ActionModel {
    ActionModel::Send(RequestModel { cmd, nonce, evt, arg })
}

/// A step that changes nothing.
pub open spec fn stay(c: CoreModel) -> StepModel {
    StepModel { core: c, actions: Seq::empty() }
}

/// The connection is torn down with an error: nothing stays pending.
pub open spec fn fail_step(c: CoreModel, msg: Seq<char>) -> StepModel {
    StepModel {
        core: CoreModel {
            state: StateModel::Error(msg),
            phase: Phase::Idle,
            pending: Seq::empty(),
            refresh: None,
            ..c
        },
        actions: seq![ActionModel::Connected(false), ActionModel::Fail(msg)],
    }
}

/// After READY: authenticate with the token at hand, or ask for
/// authorization.
pub open spec fn begin_auth(c: CoreModel, n: NonceModel) -> StepModel {
    match c.access_token {
        Some(token) => StepModel {
            core: CoreModel {
                state: StateModel::AwaitingAuth,
                phase: Phase::AwaitAuthenticate,
                pending: stored(c.pending, n.a),
                ..c
            },
            actions: seq![request(Command::Authenticate, n.a, None, Some(token))],
        },
        None => StepModel {
            core: CoreModel {
                state: StateModel::AwaitingAuth,
                phase: Phase::AwaitAuthorize,
                pending: stored(c.pending, n.a),
                ..c
            },
            actions: seq![request(Command::Authorize, n.a, None, Some(c.client_id))],
        },
    }
}

/// The token exchange has succeeded: authenticate with the new token.
pub open spec fn tokens_step(
    c: CoreModel,
    access: Seq<char>,
    refresh: Option<Seq<char>>,
    n: NonceModel,
) -> StepModel {
    if c.phase == Phase::AwaitToken {
        StepModel {
            core: CoreModel {
                access_token: Some(access),
                refresh_token: refresh,
                phase: Phase::AwaitAuthenticate,
                pending: stored(c.pending, n.a),
                ..c
            },
            actions: seq![request(Command::Authenticate, n.a, None, Some(access))],
        }
    } else {
        stay(c)
    }
}

/// The channel is known: publish it, report readiness, and subscribe to
/// channel changes and to speaking events of the channel.
pub open spec fn subscribe_step(c: CoreModel, info: ChannelInfoModel, n: NonceModel) -> StepModel {
    StepModel {
        core: CoreModel {
            state: StateModel::Subscribed,
            phase: Phase::Running,
            current_channel: Some(info.channel_id),
            held_info: None,
            pending: stored(stored(stored(c.pending, n.b), n.c), n.d),
            ..c
        },
        actions: seq![
            ActionModel::Publish(info),
            ActionModel::Ready(c.refresh_token),
            request(Command::Subscribe, n.b, Some(Subscription::VoiceChannelSelect), None),
            request(
                Command::Subscribe,
                n.c,
                Some(Subscription::SpeakingStart),
                Some(info.channel_id),
            ),
            request(Command::Subscribe, n.d, Some(Subscription::SpeakingStop), Some(info.channel_id)),
            ActionModel::Connected(true),
        ],
    }
}

/// The answer to the question which voice channel is selected. Without a
/// channel the connection fails; a channel of a guild is held back until
/// the guild's name is known.
pub open spec fn channel_step(c: CoreModel, p: PayloadModel, n: NonceModel) -> StepModel {
    match p.channel {
        None => fail_step(c, no_channel_error()),
        Some(channel) => match channel.guild_id {
            Some(guild) => StepModel {
                core: CoreModel {
                    held_info: Some(channel_info_of(channel, None, c.self_user)),
                    phase: Phase::AwaitGuild,
                    pending: stored(c.pending, n.a),
                    ..c
                },
                actions: seq![request(Command::GetGuild, n.a, None, Some(guild))],
            },
            None => subscribe_step(c, channel_info_of(channel, None, c.self_user), n),
        },
    }
}

/// The answer to the question for the guild's name. An error in its
/// place leaves the guild without a name.
pub open spec fn guild_step(c: CoreModel, p: PayloadModel, n: NonceModel) -> StepModel {
    match c.held_info {
        Some(info) => subscribe_step(
            c,
            ChannelInfoModel {
                guild_name: if event_kind(p.evt) == EventKind::Error {
                    None
                } else {
                    p.name
                },
                ..info
            },
            n,
        ),
        None => stay(c),
    }
}

/// One payload while the connection is being set up.
pub open spec fn handshake_step(c: CoreModel, p: PayloadModel, n: NonceModel) -> StepModel {
    if c.phase == Phase::AwaitGuild && answers(c, p) {
        guild_step(settle(c, p), p, n)
    } else if event_kind(p.evt) == EventKind::Error {
        fail_step(c, enhanced(error_text(p)))
    } else if c.phase == Phase::AwaitReady {
        if event_kind(p.evt) == EventKind::Ready {
            begin_auth(c, n)
        } else {
            stay(c)
        }
    } else if !answers(c, p) {
        stay(c)
    } else if c.phase == Phase::AwaitAuthorize {
        match p.code {
            Some(code) => StepModel {
                core: CoreModel { phase: Phase::AwaitToken, ..settle(c, p) },
                actions: seq![ActionModel::ExchangeCode(code)],
            },
            None => fail_step(settle(c, p), no_code_error()),
        }
    } else if c.phase == Phase::AwaitAuthenticate {
        StepModel {
            core: CoreModel {
                self_user: p.auth_user_id,
                state: StateModel::Authenticated,
                phase: Phase::AwaitChannel,
                pending: stored(settle(c, p).pending, n.a),
                ..c
            },
            actions: seq![request(Command::GetSelectedVoiceChannel, n.a, None, None)],
        }
    } else if c.phase == Phase::AwaitChannel {
        channel_step(settle(c, p), p, n)
    } else {
        stay(c)
    }
}

/// Whether the payload is the awaited answer to a channel lookup.
pub open spec fn refresh_hit(c: CoreModel, p: PayloadModel) -> bool {
    match (c.refresh, p.nonce) {
        (Some(r), Some(n)) => r.nonce == n,
        _ => false,
    }
}

/// The requests that end the subscription to the old channel's speaking
/// events.
pub open spec fn unsubscribes(old_channel: Option<Seq<char>>, n: NonceModel) -> Seq<ActionModel> {
    match old_channel {
        Some(old) => seq![
            request(Command::Unsubscribe, n.a, Some(Subscription::SpeakingStart), Some(old)),
            request(Command::Unsubscribe, n.b, Some(Subscription::SpeakingStop), Some(old)),
        ],
        None => Seq::empty(),
    }
}

/// The answer to a channel lookup: the new channel is published, the old
/// channel's speaking events are unsubscribed and the new one's
/// subscribed. An answer without a channel only clears the wait.
pub open spec fn refresh_step(c: CoreModel, p: PayloadModel, n: NonceModel) -> StepModel {
    let old_channel = match c.refresh {
        Some(r) => r.old_channel,
        None => None,
    };
    match p.channel {
        Some(channel) => StepModel {
            core: CoreModel {
                refresh: None,
                current_channel: Some(channel.id),
                pending: stored(stored(c.pending, n.c), n.d),
                ..c
            },
            actions: seq![ActionModel::Publish(channel_info_of(channel, None, c.self_user))]
                + unsubscribes(old_channel, n) + seq![
                request(
                    Command::Subscribe,
                    n.c,
                    Some(Subscription::SpeakingStart),
                    Some(channel.id),
                ),
                request(Command::Subscribe, n.d, Some(Subscription::SpeakingStop), Some(channel.id)),
            ],
        },
        None => StepModel { core: CoreModel { refresh: None, ..c }, actions: Seq::empty() },
    }
}

/// Nonce correlation: a payload that answers a pending request fulfills
/// it, once, and the request is no longer pending.
pub open spec fn correlate_step(c: CoreModel, p: PayloadModel) -> StepModel {
    if answers(c, p) {
        StepModel {
            core: settle(c, p),
            actions: seq![ActionModel::Fulfill { nonce: p.nonce->0, answered: p.has_data }],
        }
    } else {
        stay(c)
    }
}

/// A change of the selected voice channel: leaving clears the channel
/// info; entering a channel starts a lookup of it.
pub open spec fn select_step(c: CoreModel, p: PayloadModel, n: NonceModel) -> StepModel {
    if event_kind(p.evt) == EventKind::VoiceChannelSelect {
        match p.channel_id {
            None => StepModel {
                core: CoreModel { current_channel: None, ..c },
                actions: seq![ActionModel::ClearChannel],
            },
            Some(new_channel) => StepModel {
                core: CoreModel {
                    refresh: Some(RefreshModel { nonce: n.a, old_channel: c.current_channel }),
                    ..c
                },
                actions: seq![request(Command::GetChannel, n.a, None, Some(new_channel))],
            },
        }
    } else {
        stay(c)
    }
}

/// The speaking event that a payload carries, if any. A payload without
/// a user id carries none.
pub open spec fn speaking_actions(p: PayloadModel) -> Seq<ActionModel> {
    let kind = event_kind(p.evt);
    if (kind == EventKind::SpeakingStart || kind == EventKind::SpeakingStop) && p.has_data {
        match p.user_id {
            Some(user_id) => seq![
                ActionModel::Speaking { start: kind == EventKind::SpeakingStart, user_id },
            ],
            None => Seq::empty(),
        }
    } else {
        Seq::empty()
    }
}

/// An error event ends the connection.
pub open spec fn error_step(c: CoreModel, p: PayloadModel) -> StepModel {
    if event_kind(p.evt) == EventKind::Error {
        fail_step(c, error_text(p))
    } else {
        stay(c)
    }
}

/// One payload while subscribed.
pub open spec fn running_step(c: CoreModel, p: PayloadModel, n: NonceModel) -> StepModel {
    if refresh_hit(c, p) {
        refresh_step(c, p, n)
    } else {
        let correlated = correlate_step(c, p);
        let selected = select_step(correlated.core, p, n);
        let ended = error_step(selected.core, p);
        StepModel {
            core: ended.core,
            actions: correlated.actions + selected.actions + speaking_actions(p) + ended.actions,
        }
    }
}

/// One incoming payload, in any phase.
pub open spec fn frame_step(c: CoreModel, p: PayloadModel, n: NonceModel) -> StepModel {
    if c.phase == Phase::Running {
        running_step(c, p, n)
    } else if c.phase == Phase::Idle || c.phase == Phase::AwaitToken {
        stay(c)
    } else {
        handshake_step(c, p, n)
    }
}

/// The transport was closed.
pub open spec fn closed_step(c: CoreModel) -> StepModel {
    if c.phase == Phase::Idle {
        stay(c)
    } else if c.phase == Phase::Running {
        StepModel {
            core: CoreModel {
                state: StateModel::Disconnected,
                phase: Phase::Idle,
                pending: Seq::empty(),
                refresh: None,
                ..c
            },
            actions: seq![ActionModel::Connected(false)],
        }
    } else if c.phase == Phase::AwaitReady {
        fail_step(c, closed_before_ready_error())
    } else {
        fail_step(c, closed_error())
    }
}

/// No nonce is pending twice.
pub open spec fn distinct_nonces(pending: Seq<Seq<char>>) -> bool {
    forall|i: int, j: int| 0 <= i < j < pending.len() ==> pending[i] != pending[j]
}

/// How many of the actions fulfill the request with this nonce.
pub open spec fn fulfillments(actions: Seq<ActionModel>, nonce: Seq<char>) -> nat
    decreases actions.len(),
{
    if actions.len() == 0 {
        0
    } else {
        let rest = fulfillments(actions.drop_last(), nonce);
        match actions.last() {
            ActionModel::Fulfill { nonce: n, answered } => if n == nonce {
                rest + 1
            } else {
                rest
            },
            _ => rest,
        }
    }
}

} // verus!
