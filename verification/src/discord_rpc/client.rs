//! The client side of the voice client's RPC dialect: it takes incoming
//! payloads one at a time and says what is to be sent and done.

use crate::discord_rpc::events::{build_channel_info, ChannelInfo, SpeakingEvent, VoiceChannel};
use crate::discord_rpc::protocol::{
    answered, awaits, begin_auth, channel_step, closed_step, correlate_step, enhanced,
    error_step, event_kind, fail_step, frame_step, guild_step, handshake_step, nonce_index,
    refresh_step, running_step, select_step, speaking_actions, stored, subscribe_step,
    tokens_step, ActionModel, Command, CoreModel, EventKind, NonceModel, PayloadModel, Phase,
    RefreshModel, RequestModel, StateModel, Subscription,
};
use crate::labels::{copy_opt, opt_text};
use crate::text::{chars_of, contains_chars, texts_view};
use vstd::prelude::*;
use vstd::string::StringExecFns;

verus! {

/// Where a connection stands.
#[derive(Debug)]
pub enum RpcConnectionState {
    Disconnected,
    Connecting,
    AwaitingAuth,
    Authenticated,
    Subscribed,
    Error(String),
}

impl View for RpcConnectionState {
    type V = StateModel;

    open spec fn view(&self) -> StateModel {
        match self {
            RpcConnectionState::Disconnected => StateModel::Disconnected,
            RpcConnectionState::Connecting => StateModel::Connecting,
            RpcConnectionState::AwaitingAuth => StateModel::AwaitingAuth,
            RpcConnectionState::Authenticated => StateModel::Authenticated,
            RpcConnectionState::Subscribed => StateModel::Subscribed,
            RpcConnectionState::Error(msg) => StateModel::Error(msg@),
        }
    }
}

/// A request to the voice client. `arg` is the one argument the command
/// takes: the client id for `Authorize`, the access token for
/// `Authenticate`, the guild id for `GetGuild`, the channel id otherwise.
#[derive(Debug)]
pub struct Request {
    pub cmd: Command,
    pub nonce: String,
    pub evt: Option<Subscription>,
    pub arg: Option<String>,
}

/// What the caller is to do after a step, in order.
#[derive(Debug)]
pub enum RpcAction {
    /// Send this request.
    Send(Request),
    /// Exchange this authorization code for tokens.
    ExchangeCode(String),
    /// Make this channel info the current one.
    Publish(ChannelInfo),
    /// There is no current channel any more.
    ClearChannel,
    /// Hand this speaking event to the segmenter.
    Speaking(SpeakingEvent),
    /// The request with this nonce has its answer; `answered` says whether
    /// the answer carried data.
    Fulfill { nonce: String, answered: bool },
    /// The connection is set up; the refresh token to keep, if any.
    Ready(Option<String>),
    /// Set the connected flag.
    Connected(bool),
    /// The connection has failed with this message.
    Fail(String),
}

impl View for RpcAction {
    type V = ActionModel;

    open spec fn view(&self) -> ActionModel {
        match self {
            RpcAction::Send(r) => ActionModel::Send(
                RequestModel { cmd: r.cmd, nonce: r.nonce@, evt: r.evt, arg: opt_text(r.arg) },
            ),
            RpcAction::ExchangeCode(code) => ActionModel::ExchangeCode(code@),
            RpcAction::Publish(info) => ActionModel::Publish(info@),
            RpcAction::ClearChannel => ActionModel::ClearChannel,
            RpcAction::Speaking(SpeakingEvent::Start { user_id }) => ActionModel::Speaking {
                start: true,
                user_id: user_id@,
            },
            RpcAction::Speaking(SpeakingEvent::Stop { user_id }) => ActionModel::Speaking {
                start: false,
                user_id: user_id@,
            },
            RpcAction::Fulfill { nonce, answered } => ActionModel::Fulfill {
                nonce: nonce@,
                answered: *answered,
            },
            RpcAction::Ready(token) => ActionModel::Ready(opt_text(*token)),
            RpcAction::Connected(on) => ActionModel::Connected(*on),
            RpcAction::Fail(msg) => ActionModel::Fail(msg@),
        }
    }
}

/// The actions of a list as plain values, in order.
pub open spec fn actions_view(actions: Seq<RpcAction>) -> Seq<ActionModel> {
    Seq::new(actions.len(), |i: int| actions[i]@)
}

/// What the client reads of an incoming payload. `channel` is present
/// when the data names a channel by id; `has_data` says whether the
/// payload had any data.
#[derive(Debug)]
pub struct RpcPayload {
    pub evt: Option<String>,
    pub nonce: Option<String>,
    pub has_data: bool,
    pub message: Option<String>,
    pub code: Option<String>,
    pub user_id: Option<String>,
    pub auth_user_id: Option<String>,
    pub channel_id: Option<String>,
    pub channel: Option<VoiceChannel>,
    pub name: Option<String>,
}

impl View for RpcPayload {
    type V = PayloadModel;

    open spec fn view(&self) -> PayloadModel {
        PayloadModel {
            evt: opt_text(self.evt),
            nonce: opt_text(self.nonce),
            has_data: self.has_data,
            message: opt_text(self.message),
            code: opt_text(self.code),
            user_id: opt_text(self.user_id),
            auth_user_id: opt_text(self.auth_user_id),
            channel_id: opt_text(self.channel_id),
            channel: match self.channel {
                Some(ch) => Some(ch@),
                None => None,
            },
            name: opt_text(self.name),
        }
    }
}

/// Four nonces for the requests that one step may send.
#[derive(Debug)]
pub struct NonceBatch {
    pub a: String,
    pub b: String,
    pub c: String,
    pub d: String,
}

impl View for NonceBatch {
    type V = NonceModel;

    open spec fn view(&self) -> NonceModel {
        NonceModel { a: self.a@, b: self.b@, c: self.c@, d: self.d@ }
    }
}

struct ChannelRefresh {
    nonce: String,
    old_channel_id: Option<String>,
}

/// One connection to the voice client.
pub struct DiscordRpcClient {
    client_id: String,
    client_secret: String,
    rpc_origin: String,
    state: RpcConnectionState,
    phase: Phase,
    pending: Vec<String>,
    channel_refresh: Option<ChannelRefresh>,
    current_channel_id: Option<String>,
    self_user_id: Option<String>,
    access_token: Option<String>,
    refresh_token: Option<String>,
    held_info: Option<ChannelInfo>,
}

/// `Uuid::new_v4` draws a random UUID from the operating system's random
/// source, and its `Display` form is the hyphenated one: 36 characters.
/// Nothing else is known of the value. The call fails only where the
/// system has no random source.
#[verifier::external_body]
fn fresh_nonce() -> (nonce: String)
    ensures
        nonce@.len() == 36,
{
    uuid::Uuid::new_v4().to_string()
}

/// Draws four fresh nonces.
pub fn draw_nonces() -> (batch: NonceBatch)
    ensures
        batch.a@.len() == 36,
        batch.b@.len() == 36,
        batch.c@.len() == 36,
        batch.d@.len() == 36,
{
    NonceBatch { a: fresh_nonce(), b: fresh_nonce(), c: fresh_nonce(), d: fresh_nonce() }
}

/// Tells what an event name stands for.
pub fn classify_event(evt: &Option<String>) -> (kind: EventKind)
    ensures
        kind == event_kind(opt_text(*evt)),
{
    match evt {
        Some(e) => {
            if e.eq(&"READY".to_owned()) {
                EventKind::Ready
            } else if e.eq(&"ERROR".to_owned()) {
                EventKind::Error
            } else if e.eq(&"VOICE_CHANNEL_SELECT".to_owned()) {
                EventKind::VoiceChannelSelect
            } else if e.eq(&"SPEAKING_START".to_owned()) {
                EventKind::SpeakingStart
            } else if e.eq(&"SPEAKING_STOP".to_owned()) {
                EventKind::SpeakingStop
            } else {
                EventKind::Other
            }
        },
        None => EventKind::Other,
    }
}

/// Adds guidance to the one diagnostic that reports an invalid origin;
/// every other text is returned as it stands.
pub fn enhance_error(err: &str) -> (text: String)
    ensures
        text@ == enhanced(err@),
{
    let chars = chars_of(err);
    let marker = chars_of("Invalid Origin");
    let mut text: String = err.to_owned();
    if contains_chars(&chars, &marker) {
        text.append(
            ". Add https://localhost to your app's RPC Origins in the Discord Developer Portal. RPC Origin is separate from OAuth2 Redirects. If you don't see an RPC Origin field, your app may not have RPC access (RPC is in private beta).",
        );
    }
    text
}

/// The refresh token to keep after a silent reconnect: the rotated one
/// when the token endpoint issued one, else the one that was used.
pub fn refresh_token_to_save(rotated: Option<String>, used: String) -> (kept: String)
    ensures
        kept@ == match rotated {
            Some(r) => r@,
            None => used@,
        },
{
    match rotated {
        Some(r) => r,
        None => used,
    }
}

fn find_nonce(pending: &Vec<String>, nonce: &String) -> (k: usize)
    ensures
        k == nonce_index(texts_view(pending@), nonce@, 0),
        k <= pending@.len(),
{
    let mut i: usize = 0;
    while i < pending.len()
        invariant
            i <= pending@.len(),
            nonce_index(texts_view(pending@), nonce@, 0) == nonce_index(
                texts_view(pending@),
                nonce@,
                i as int,
            ),
        decreases pending@.len() - i,
    {
        if pending[i].eq(nonce) {
            return i;
        }
        i = i + 1;
    }
    i
}

fn store_nonce(pending: &mut Vec<String>, nonce: &String)
    ensures
        texts_view(final(pending)@) == stored(texts_view(old(pending)@), nonce@),
{
    let k: usize = find_nonce(pending, nonce);
    if k >= pending.len() {
        let ghost before = texts_view(pending@);
        pending.push(nonce.clone());
        proof {
            assert(texts_view(pending@) =~= before.push(nonce@));
        }
    }
}

fn take_answer(pending: &mut Vec<String>, nonce: &Option<String>) -> (hit: bool)
    ensures
        hit == match nonce {
            Some(n) => awaits(texts_view(old(pending)@), n@),
            None => false,
        },
        texts_view(final(pending)@) == match nonce {
            Some(n) => answered(texts_view(old(pending)@), n@),
            None => texts_view(old(pending)@),
        },
{
    match nonce {
        Some(n) => {
            let k: usize = find_nonce(pending, n);
            if k < pending.len() {
                let ghost before = texts_view(pending@);
                let _ = pending.remove(k);
                proof {
                    assert(texts_view(pending@) =~= before.remove(k as int));
                }
                true
            } else {
                false
            }
        },
        None => false,
    }
}

fn send(cmd: Command, nonce: &String, evt: Option<Subscription>, arg: Option<String>) -> (action:
    RpcAction)
    ensures
        action@ == crate::discord_rpc::protocol::request(cmd, nonce@, evt, opt_text(arg)),
{
    RpcAction::Send(Request { cmd, nonce: nonce.clone(), evt, arg })
}

fn join_actions(head: &mut Vec<RpcAction>, tail: Vec<RpcAction>)
    ensures
        actions_view(final(head)@) == actions_view(old(head)@) + actions_view(tail@),
{
    let ghost given = tail@;
    let mut tail = tail;
    head.append(&mut tail);
    proof {
        assert(actions_view(head@) =~= actions_view(old(head)@) + actions_view(given));
    }
}

impl DiscordRpcClient {
    /// The connection as plain values.
    pub closed spec fn view(&self) -> CoreModel {
        CoreModel {
            state: self.state@,
            phase: self.phase,
            pending: texts_view(self.pending@),
            refresh: match self.channel_refresh {
                Some(r) => Some(
                    RefreshModel { nonce: r.nonce@, old_channel: opt_text(r.old_channel_id) },
                ),
                None => None,
            },
            current_channel: opt_text(self.current_channel_id),
            self_user: opt_text(self.self_user_id),
            client_id: self.client_id@,
            access_token: opt_text(self.access_token),
            refresh_token: opt_text(self.refresh_token),
            held_info: match self.held_info {
                Some(info) => Some(info@),
                None => None,
            },
        }
    }

    /// The origin that the WebSocket transport announces.
    pub closed spec fn origin(&self) -> Seq<char> {
        self.rpc_origin@
    }

    /// The client secret for the token endpoint.
    pub closed spec fn secret(&self) -> Seq<char> {
        self.client_secret@
    }

    /// A client that is not connected.
    pub fn new(client_id: String, client_secret: String, rpc_origin: String) -> (client: Self)
        ensures
            client@ == (CoreModel {
                state: StateModel::Disconnected,
                phase: Phase::Idle,
                pending: Seq::empty(),
                refresh: None,
                current_channel: None,
                self_user: None,
                client_id: client_id@,
                access_token: None,
                refresh_token: None,
                held_info: None,
            }),
            client.origin() == rpc_origin@,
            client.secret() == client_secret@,
    {
        let client = DiscordRpcClient {
            client_id,
            client_secret,
            rpc_origin,
            state: RpcConnectionState::Disconnected,
            phase: Phase::Idle,
            pending: Vec::new(),
            channel_refresh: None,
            current_channel_id: None,
            self_user_id: None,
            access_token: None,
            refresh_token: None,
            held_info: None,
        };
        proof {
            assert(texts_view(client.pending@) =~= Seq::empty());
        }
        client
    }

    /// Begins a connection that will ask the user for authorization: the
    /// client waits for the voice client's READY.
    pub fn connect(&mut self)
        ensures
            final(self)@ == (CoreModel {
                state: StateModel::Connecting,
                phase: Phase::AwaitReady,
                pending: Seq::empty(),
                refresh: None,
                access_token: None,
                refresh_token: None,
                held_info: None,
                ..old(self)@
            }),
            final(self).origin() == old(self).origin(),
            final(self).secret() == old(self).secret(),
    {
        self.state = RpcConnectionState::Connecting;
        self.phase = Phase::AwaitReady;
        self.pending = Vec::new();
        self.channel_refresh = None;
        self.access_token = None;
        self.refresh_token = None;
        self.held_info = None;
        proof {
            assert(texts_view(self.pending@) =~= Seq::empty());
        }
    }

    /// Begins a connection with an access token that was obtained from a
    /// stored refresh token, so that no authorization is asked for.
    /// `refresh_token` is the one to keep for the next time.
    pub fn connect_with_refresh_token(&mut self, access_token: String, refresh_token: String)
        ensures
            final(self)@ == (CoreModel {
                state: StateModel::Connecting,
                phase: Phase::AwaitReady,
                pending: Seq::empty(),
                refresh: None,
                access_token: Some(access_token@),
                refresh_token: Some(refresh_token@),
                held_info: None,
                ..old(self)@
            }),
            final(self).origin() == old(self).origin(),
            final(self).secret() == old(self).secret(),
    {
        self.state = RpcConnectionState::Connecting;
        self.phase = Phase::AwaitReady;
        self.pending = Vec::new();
        self.channel_refresh = None;
        self.access_token = Some(access_token);
        self.refresh_token = Some(refresh_token);
        self.held_info = None;
        proof {
            assert(texts_view(self.pending@) =~= Seq::empty());
        }
    }

    /// The connection state.
    pub fn connection_state(&self) -> (state: RpcConnectionState)
        ensures
            state@ == self@.state,
    {
        match &self.state {
            RpcConnectionState::Disconnected => RpcConnectionState::Disconnected,
            RpcConnectionState::Connecting => RpcConnectionState::Connecting,
            RpcConnectionState::AwaitingAuth => RpcConnectionState::AwaitingAuth,
            RpcConnectionState::Authenticated => RpcConnectionState::Authenticated,
            RpcConnectionState::Subscribed => RpcConnectionState::Subscribed,
            RpcConnectionState::Error(msg) => RpcConnectionState::Error(msg.clone()),
        }
    }

    /// The channel is learnt while connecting, so this lookup has nothing
    /// to report.
    pub fn get_selected_voice_channel(&self) -> (channel: Result<Option<VoiceChannel>, String>)
        ensures
            channel is Ok,
            channel->Ok_0 is None,
    {
        Ok(None)
    }

    /// The id of the channel whose speaking events are subscribed.
    pub fn current_channel(&self) -> (id: Option<String>)
        ensures
            opt_text(id) == self@.current_channel,
    {
        copy_opt(&self.current_channel_id)
    }

    /// How many requests await their answer.
    pub fn pending_count(&self) -> (n: usize)
        ensures
            n == self@.pending.len(),
    {
        self.pending.len()
    }

    /// Whether a request with this nonce awaits its answer.
    pub fn is_pending(&self, nonce: &String) -> (b: bool)
        ensures
            b == awaits(self@.pending, nonce@),
    {
        find_nonce(&self.pending, nonce) < self.pending.len()
    }

    fn fail(&mut self, msg: String) -> (acts: Vec<RpcAction>)
        ensures
            final(self)@ == fail_step(old(self)@, msg@).core,
            actions_view(acts@) == fail_step(old(self)@, msg@).actions,
            final(self).origin() == old(self).origin(),
            final(self).secret() == old(self).secret(),
    {
        let mut acts: Vec<RpcAction> = Vec::new();
        acts.push(RpcAction::Connected(false));
        acts.push(RpcAction::Fail(msg.clone()));
        self.state = RpcConnectionState::Error(msg);
        self.phase = Phase::Idle;
        self.pending = Vec::new();
        self.channel_refresh = None;
        proof {
            assert(texts_view(self.pending@) =~= Seq::empty());
            assert(actions_view(acts@) =~= fail_step(old(self)@, msg@).actions);
        }
        acts
    }

    fn begin_auth(&mut self, n: &NonceBatch) -> (acts: Vec<RpcAction>)
        ensures
            final(self)@ == begin_auth(old(self)@, n@).core,
            actions_view(acts@) == begin_auth(old(self)@, n@).actions,
            final(self).origin() == old(self).origin(),
            final(self).secret() == old(self).secret(),
    {
        let mut acts: Vec<RpcAction> = Vec::new();
        self.state = RpcConnectionState::AwaitingAuth;
        store_nonce(&mut self.pending, &n.a);
        match &self.access_token {
            Some(token) => {
                self.phase = Phase::AwaitAuthenticate;
                acts.push(send(Command::Authenticate, &n.a, None, Some(token.clone())));
            },
            None => {
                self.phase = Phase::AwaitAuthorize;
                acts.push(send(Command::Authorize, &n.a, None, Some(self.client_id.clone())));
            },
        }
        proof {
            assert(actions_view(acts@) =~= begin_auth(old(self)@, n@).actions);
        }
        acts
    }

    fn subscribe(&mut self, info: ChannelInfo, n: &NonceBatch) -> (acts: Vec<RpcAction>)
        ensures
            final(self)@ == subscribe_step(old(self)@, info@, n@).core,
            actions_view(acts@) == subscribe_step(old(self)@, info@, n@).actions,
            final(self).origin() == old(self).origin(),
            final(self).secret() == old(self).secret(),
    {
        let mut acts: Vec<RpcAction> = Vec::new();
        let channel_id: String = info.channel_id.clone();
        self.state = RpcConnectionState::Subscribed;
        self.phase = Phase::Running;
        self.current_channel_id = Some(channel_id.clone());
        self.held_info = None;
        store_nonce(&mut self.pending, &n.b);
        store_nonce(&mut self.pending, &n.c);
        store_nonce(&mut self.pending, &n.d);
        acts.push(RpcAction::Publish(info));
        acts.push(RpcAction::Ready(copy_opt(&self.refresh_token)));
        acts.push(send(Command::Subscribe, &n.b, Some(Subscription::VoiceChannelSelect), None));
        acts.push(
            send(
                Command::Subscribe,
                &n.c,
                Some(Subscription::SpeakingStart),
                Some(channel_id.clone()),
            ),
        );
        acts.push(
            send(Command::Subscribe, &n.d, Some(Subscription::SpeakingStop), Some(channel_id)),
        );
        acts.push(RpcAction::Connected(true));
        proof {
            assert(actions_view(acts@) =~= subscribe_step(old(self)@, info@, n@).actions);
        }
        acts
    }

    fn on_channel(&mut self, p: &RpcPayload, n: &NonceBatch) -> (acts: Vec<RpcAction>)
        ensures
            final(self)@ == channel_step(old(self)@, p@, n@).core,
            actions_view(acts@) == channel_step(old(self)@, p@, n@).actions,
            final(self).origin() == old(self).origin(),
            final(self).secret() == old(self).secret(),
    {
        match &p.channel {
            None => self.fail(
                "Not in a voice channel. Join a voice channel in Discord first, then click Connect.".to_owned(),
            ),
            Some(channel) => {
                let info = build_channel_info(channel, &None, &self.self_user_id);
                match &channel.guild_id {
                    Some(guild) => {
                        let mut acts: Vec<RpcAction> = Vec::new();
                        self.held_info = Some(info);
                        self.phase = Phase::AwaitGuild;
                        store_nonce(&mut self.pending, &n.a);
                        acts.push(send(Command::GetGuild, &n.a, None, Some(guild.clone())));
                        proof {
                            assert(actions_view(acts@) =~= channel_step(
                                old(self)@,
                                p@,
                                n@,
                            ).actions);
                        }
                        acts
                    },
                    None => self.subscribe(info, n),
                }
            },
        }
    }

    fn on_guild(&mut self, p: &RpcPayload, n: &NonceBatch) -> (acts: Vec<RpcAction>)
        ensures
            final(self)@ == guild_step(old(self)@, p@, n@).core,
            actions_view(acts@) == guild_step(old(self)@, p@, n@).actions,
            final(self).origin() == old(self).origin(),
            final(self).secret() == old(self).secret(),
    {
        match self.held_info.take() {
            Some(info) => {
                let mut info = info;
                info.guild_name = match classify_event(&p.evt) {
                    EventKind::Error => None,
                    _ => copy_opt(&p.name),
                };
                self.subscribe(info, n)
            },
            None => {
                let acts: Vec<RpcAction> = Vec::new();
                proof {
                    assert(actions_view(acts@) =~= Seq::empty());
                }
                acts
            },
        }
    }

    fn on_handshake(&mut self, p: &RpcPayload, n: &NonceBatch) -> (acts: Vec<RpcAction>)
        ensures
            final(self)@ == handshake_step(old(self)@, p@, n@).core,
            actions_view(acts@) == handshake_step(old(self)@, p@, n@).actions,
            final(self).origin() == old(self).origin(),
            final(self).secret() == old(self).secret(),
    {
        let kind = classify_event(&p.evt);
        let mut acts: Vec<RpcAction> = Vec::new();
        proof {
            assert(actions_view(acts@) =~= Seq::empty());
        }
        let awaited: bool = match &p.nonce {
            Some(nonce) => find_nonce(&self.pending, nonce) < self.pending.len(),
            None => false,
        };
        if self.phase == Phase::AwaitGuild && awaited {
            let _ = take_answer(&mut self.pending, &p.nonce);
            return self.on_guild(p, n);
        }
        if kind == EventKind::Error {
            let msg: String = match &p.message {
                Some(m) => enhance_error(m.as_str()),
                None => enhance_error("Unknown error"),
            };
            return self.fail(msg);
        }
        if self.phase == Phase::AwaitReady {
            if kind == EventKind::Ready {
                return self.begin_auth(n);
            }
            return acts;
        }
        if !awaited {
            return acts;
        }
        if self.phase == Phase::AwaitAuthorize {
            let _ = take_answer(&mut self.pending, &p.nonce);
            match &p.code {
                Some(code) => {
                    self.phase = Phase::AwaitToken;
                    acts.push(RpcAction::ExchangeCode(code.clone()));
                    proof {
                        assert(actions_view(acts@) =~= seq![ActionModel::ExchangeCode(code@)]);
                    }
                    return acts;
                },
                None => {
                    return self.fail(
                        "No authorization code. Did you approve in the Discord popup? If no popup appeared, check RPC Origin and Redirect URI.".to_owned(),
                    );
                },
            }
        }
        if self.phase == Phase::AwaitAuthenticate {
            let _ = take_answer(&mut self.pending, &p.nonce);
            self.self_user_id = copy_opt(&p.auth_user_id);
            self.state = RpcConnectionState::Authenticated;
            self.phase = Phase::AwaitChannel;
            store_nonce(&mut self.pending, &n.a);
            acts.push(send(Command::GetSelectedVoiceChannel, &n.a, None, None));
            proof {
                assert(actions_view(acts@) =~= handshake_step(old(self)@, p@, n@).actions);
            }
            return acts;
        }
        if self.phase == Phase::AwaitChannel {
            let _ = take_answer(&mut self.pending, &p.nonce);
            return self.on_channel(p, n);
        }
        acts
    }

    fn on_refresh(&mut self, p: &RpcPayload, n: &NonceBatch) -> (acts: Vec<RpcAction>)
        ensures
            final(self)@ == refresh_step(old(self)@, p@, n@).core,
            actions_view(acts@) == refresh_step(old(self)@, p@, n@).actions,
            final(self).origin() == old(self).origin(),
            final(self).secret() == old(self).secret(),
    {
        let mut acts: Vec<RpcAction> = Vec::new();
        let slot = self.channel_refresh.take();
        match &p.channel {
            Some(channel) => {
                let info = build_channel_info(channel, &None, &self.self_user_id);
                let new_id: String = channel.id.clone();
                self.current_channel_id = Some(new_id.clone());
                store_nonce(&mut self.pending, &n.c);
                store_nonce(&mut self.pending, &n.d);
                acts.push(RpcAction::Publish(info));
                match slot {
                    Some(ChannelRefresh { nonce: _, old_channel_id: Some(old_id) }) => {
                        acts.push(
                            send(
                                Command::Unsubscribe,
                                &n.a,
                                Some(Subscription::SpeakingStart),
                                Some(old_id.clone()),
                            ),
                        );
                        acts.push(
                            send(
                                Command::Unsubscribe,
                                &n.b,
                                Some(Subscription::SpeakingStop),
                                Some(old_id),
                            ),
                        );
                    },
                    _ => {},
                }
                acts.push(
                    send(
                        Command::Subscribe,
                        &n.c,
                        Some(Subscription::SpeakingStart),
                        Some(new_id.clone()),
                    ),
                );
                acts.push(
                    send(Command::Subscribe, &n.d, Some(Subscription::SpeakingStop), Some(new_id)),
                );
                proof {
                    assert(actions_view(acts@) =~= refresh_step(old(self)@, p@, n@).actions);
                }
            },
            None => {
                proof {
                    assert(actions_view(acts@) =~= Seq::empty());
                }
            },
        }
        acts
    }

    fn on_running(&mut self, p: &RpcPayload, n: &NonceBatch) -> (acts: Vec<RpcAction>)
        ensures
            final(self)@ == running_step(old(self)@, p@, n@).core,
            actions_view(acts@) == running_step(old(self)@, p@, n@).actions,
            final(self).origin() == old(self).origin(),
            final(self).secret() == old(self).secret(),
    {
        let hit: bool = match (&self.channel_refresh, &p.nonce) {
            (Some(r), Some(nonce)) => r.nonce.eq(nonce),
            _ => false,
        };
        if hit {
            return self.on_refresh(p, n);
        }
        let kind = classify_event(&p.evt);
        let mut acts: Vec<RpcAction> = Vec::new();
        let ghost c0 = self@;
        if take_answer(&mut self.pending, &p.nonce) {
            match &p.nonce {
                Some(nonce) => {
                    acts.push(RpcAction::Fulfill { nonce: nonce.clone(), answered: p.has_data });
                },
                None => {},
            }
        }
        proof {
            assert(self@ == correlate_step(c0, p@).core);
            assert(actions_view(acts@) =~= correlate_step(c0, p@).actions);
        }
        let ghost c1 = self@;
        let ghost a1 = actions_view(acts@);
        if kind == EventKind::VoiceChannelSelect {
            match &p.channel_id {
                None => {
                    self.current_channel_id = None;
                    acts.push(RpcAction::ClearChannel);
                },
                Some(new_channel) => {
                    self.channel_refresh = Some(
                        ChannelRefresh {
                            nonce: n.a.clone(),
                            old_channel_id: copy_opt(&self.current_channel_id),
                        },
                    );
                    acts.push(send(Command::GetChannel, &n.a, None, Some(new_channel.clone())));
                },
            }
        }
        proof {
            assert(self@ == select_step(c1, p@, n@).core);
            assert(actions_view(acts@) =~= a1 + select_step(c1, p@, n@).actions);
        }
        let ghost c2 = self@;
        let ghost a2 = actions_view(acts@);
        if (kind == EventKind::SpeakingStart || kind == EventKind::SpeakingStop) && p.has_data {
            match &p.user_id {
                Some(user_id) => {
                    if kind == EventKind::SpeakingStart {
                        acts.push(
                            RpcAction::Speaking(SpeakingEvent::Start { user_id: user_id.clone() }),
                        );
                    } else {
                        acts.push(
                            RpcAction::Speaking(SpeakingEvent::Stop { user_id: user_id.clone() }),
                        );
                    }
                },
                None => {},
            }
        }
        proof {
            assert(actions_view(acts@) =~= a2 + speaking_actions(p@));
        }
        let ghost a3 = actions_view(acts@);
        if kind == EventKind::Error {
            let msg: String = match &p.message {
                Some(m) => m.clone(),
                None => "Unknown error".to_owned(),
            };
            let tail = self.fail(msg);
            join_actions(&mut acts, tail);
        }
        proof {
            assert(self@ == error_step(c2, p@).core);
            assert(actions_view(acts@) =~= a3 + error_step(c2, p@).actions);
        }
        acts
    }

    /// Takes one incoming payload and says what is to be done, given the
    /// nonces for the requests that the step may send.
    pub fn handle_frame_with(&mut self, p: &RpcPayload, n: &NonceBatch) -> (acts: Vec<RpcAction>)
        ensures
            final(self)@ == frame_step(old(self)@, p@, n@).core,
            actions_view(acts@) == frame_step(old(self)@, p@, n@).actions,
            final(self).origin() == old(self).origin(),
            final(self).secret() == old(self).secret(),
    {
        if self.phase == Phase::Running {
            self.on_running(p, n)
        } else if self.phase == Phase::Idle || self.phase == Phase::AwaitToken {
            let acts: Vec<RpcAction> = Vec::new();
            proof {
                assert(actions_view(acts@) =~= Seq::empty());
            }
            acts
        } else {
            self.on_handshake(p, n)
        }
    }

    /// Takes one incoming payload and says what is to be done. The nonces
    /// of the requests it sends are drawn at random.
    pub fn handle_frame(&mut self, p: &RpcPayload) -> (acts: Vec<RpcAction>)
        ensures
            exists|n: NonceModel|
                final(self)@ == (#[trigger] frame_step(old(self)@, p@, n)).core && actions_view(
                    acts@,
                ) == frame_step(old(self)@, p@, n).actions,
            final(self).origin() == old(self).origin(),
            final(self).secret() == old(self).secret(),
    {
        let n = draw_nonces();
        self.handle_frame_with(p, &n)
    }

    /// Takes the tokens that the token endpoint issued for an
    /// authorization code, given the nonce for the request to send.
    pub fn handle_tokens_with(
        &mut self,
        access_token: String,
        refresh_token: Option<String>,
        n: &NonceBatch,
    ) -> (acts: Vec<RpcAction>)
        ensures
            final(self)@ == tokens_step(old(self)@, access_token@, opt_text(refresh_token), n@).core,
            actions_view(acts@) == tokens_step(
                old(self)@,
                access_token@,
                opt_text(refresh_token),
                n@,
            ).actions,
            final(self).origin() == old(self).origin(),
            final(self).secret() == old(self).secret(),
    {
        let mut acts: Vec<RpcAction> = Vec::new();
        if self.phase == Phase::AwaitToken {
            acts.push(send(Command::Authenticate, &n.a, None, Some(access_token.clone())));
            self.access_token = Some(access_token);
            self.refresh_token = refresh_token;
            self.phase = Phase::AwaitAuthenticate;
            store_nonce(&mut self.pending, &n.a);
        }
        proof {
            assert(actions_view(acts@) =~= tokens_step(
                old(self)@,
                access_token@,
                opt_text(refresh_token),
                n@,
            ).actions);
        }
        acts
    }

    /// Takes the tokens that the token endpoint issued for an
    /// authorization code. The nonce of the request is drawn at random.
    pub fn handle_tokens(&mut self, access_token: String, refresh_token: Option<String>) -> (acts:
        Vec<RpcAction>)
        ensures
            exists|n: NonceModel|
                final(self)@ == (#[trigger] tokens_step(
                    old(self)@,
                    access_token@,
                    opt_text(refresh_token),
                    n,
                )).core && actions_view(acts@) == tokens_step(
                    old(self)@,
                    access_token@,
                    opt_text(refresh_token),
                    n,
                ).actions,
            final(self).origin() == old(self).origin(),
            final(self).secret() == old(self).secret(),
    {
        let n = draw_nonces();
        self.handle_tokens_with(access_token, refresh_token, &n)
    }

    /// The connection has failed outside the protocol (the token exchange
    /// was refused, a request could not be sent): it is torn down with the
    /// given message.
    pub fn handle_failure(&mut self, msg: String) -> (acts: Vec<RpcAction>)
        ensures
            final(self)@ == fail_step(old(self)@, msg@).core,
            actions_view(acts@) == fail_step(old(self)@, msg@).actions,
            final(self).origin() == old(self).origin(),
            final(self).secret() == old(self).secret(),
    {
        self.fail(msg)
    }

    /// The transport was closed: nothing stays pending.
    pub fn handle_closed(&mut self) -> (acts: Vec<RpcAction>)
        ensures
            final(self)@ == closed_step(old(self)@).core,
            actions_view(acts@) == closed_step(old(self)@).actions,
            final(self).origin() == old(self).origin(),
            final(self).secret() == old(self).secret(),
    {
        if self.phase == Phase::Idle {
            let acts: Vec<RpcAction> = Vec::new();
            proof {
                assert(actions_view(acts@) =~= Seq::empty());
            }
            acts
        } else if self.phase == Phase::Running {
            let mut acts: Vec<RpcAction> = Vec::new();
            acts.push(RpcAction::Connected(false));
            self.state = RpcConnectionState::Disconnected;
            self.phase = Phase::Idle;
            self.pending = Vec::new();
            self.channel_refresh = None;
            proof {
                assert(texts_view(self.pending@) =~= Seq::empty());
                assert(actions_view(acts@) =~= seq![ActionModel::Connected(false)]);
            }
            acts
        } else if self.phase == Phase::AwaitReady {
            self.fail("Connection closed before READY".to_owned())
        } else {
            self.fail("Connection closed by Discord".to_owned())
        }
    }
}

} // verus!
