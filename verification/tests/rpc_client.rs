use d_scribe::discord_rpc::client::{
    classify_event, draw_nonces, enhance_error, refresh_token_to_save, DiscordRpcClient,
    NonceBatch, Request, RpcAction, RpcConnectionState, RpcPayload,
};
use d_scribe::discord_rpc::events::{
    build_user_labels, SpeakingEvent, VoiceChannel, VoiceState, VoiceStateUser,
};
use d_scribe::discord_rpc::protocol::{Command, EventKind, Subscription};
use d_scribe::discord_rpc::token_store::tokens_to_save;
use d_scribe::discord_rpc::{
    clear_channel_info, get_channel_info, is_rpc_connected, presence, set_channel_info,
    set_rpc_connected, Presence, RpcShared,
};

fn nonces(tag: &str) -> NonceBatch {
    NonceBatch {
        a: format!("{}-a", tag),
        b: format!("{}-b", tag),
        c: format!("{}-c", tag),
        d: format!("{}-d", tag),
    }
}

fn blank() -> RpcPayload {
    RpcPayload {
        evt: None,
        nonce: None,
        has_data: false,
        message: None,
        code: None,
        user_id: None,
        auth_user_id: None,
        channel_id: None,
        channel: None,
        name: None,
    }
}

fn event(name: &str) -> RpcPayload {
    let mut p = blank();
    p.evt = Some(name.to_string());
    p.has_data = true;
    p
}

fn answer(nonce: &str) -> RpcPayload {
    let mut p = blank();
    p.nonce = Some(nonce.to_string());
    p.has_data = true;
    p
}

fn state(id: &str, username: Option<&str>, nick: Option<&str>) -> VoiceState {
    VoiceState {
        user: Some(VoiceStateUser { id: id.to_string(), username: username.map(String::from) }),
        nick: nick.map(String::from),
    }
}

fn voice_channel(id: &str, guild: Option<&str>) -> VoiceChannel {
    VoiceChannel {
        id: id.to_string(),
        name: Some(format!("name-{}", id)),
        guild_id: guild.map(String::from),
        channel_type: Some(2),
        voice_states: Some(vec![
            state("u1", Some("alice"), Some("Al")),
            state("u2", Some("bob"), None),
            state("u3", None, None),
        ]),
    }
}

fn describe_request(r: &Request) -> String {
    format!("{:?} {} {:?} {:?}", r.cmd, r.nonce, r.evt, r.arg)
}

fn describe(action: &RpcAction) -> String {
    match action {
        RpcAction::Send(r) => format!("send {}", describe_request(r)),
        RpcAction::ExchangeCode(code) => format!("exchange {}", code),
        RpcAction::Publish(info) => format!(
            "publish {} {:?} {:?} {:?} labels={}",
            info.channel_id,
            info.channel_name,
            info.guild_name,
            info.self_user_id,
            info.user_labels
                .iter()
                .map(|l| format!("{}={}", l.user_id, l.label))
                .collect::<Vec<_>>()
                .join(",")
        ),
        RpcAction::ClearChannel => "clear".to_string(),
        RpcAction::Speaking(SpeakingEvent::Start { user_id }) => format!("start {}", user_id),
        RpcAction::Speaking(SpeakingEvent::Stop { user_id }) => format!("stop {}", user_id),
        RpcAction::Fulfill { nonce, answered } => format!("fulfill {} {}", nonce, answered),
        RpcAction::Ready(token) => format!("ready {:?}", token),
        RpcAction::Connected(on) => format!("connected {}", on),
        RpcAction::Fail(msg) => format!("fail {}", msg),
    }
}

fn all(actions: &[RpcAction]) -> Vec<String> {
    actions.iter().map(describe).collect()
}

fn is_state(client: &DiscordRpcClient, expected: &str) -> bool {
    format!("{:?}", client.connection_state()) == expected
}

/// A client that is subscribed to the speaking events of channel C1.
fn subscribed() -> DiscordRpcClient {
    let mut client =
        DiscordRpcClient::new("app".to_string(), "secret".to_string(), "https://localhost".into());
    client.connect();
    client.handle_frame_with(&event("READY"), &nonces("n1"));
    let mut code = answer("n1-a");
    code.code = Some("the-code".to_string());
    client.handle_frame_with(&code, &nonces("n2"));
    client.handle_tokens_with("access".to_string(), Some("refresh".to_string()), &nonces("n3"));
    let mut auth = answer("n3-a");
    auth.auth_user_id = Some("me".to_string());
    client.handle_frame_with(&auth, &nonces("n4"));
    let mut chan = answer("n4-a");
    chan.channel = Some(voice_channel("C1", None));
    client.handle_frame_with(&chan, &nonces("n5"));
    client
}

#[test]
fn fresh_auth_handshake() {
    let mut client =
        DiscordRpcClient::new("app".to_string(), "secret".to_string(), "https://localhost".into());
    assert!(is_state(&client, "Disconnected"));
    client.connect();
    assert!(is_state(&client, "Connecting"));

    let acts = client.handle_frame_with(&event("READY"), &nonces("n1"));
    assert_eq!(all(&acts), vec!["send Authorize n1-a None Some(\"app\")"]);
    assert!(is_state(&client, "AwaitingAuth"));
    assert!(client.is_pending(&"n1-a".to_string()));

    let mut code = answer("n1-a");
    code.code = Some("the-code".to_string());
    let acts = client.handle_frame_with(&code, &nonces("n2"));
    assert_eq!(all(&acts), vec!["exchange the-code"]);
    assert_eq!(client.pending_count(), 0);

    let acts =
        client.handle_tokens_with("access".to_string(), Some("refresh".to_string()), &nonces("n3"));
    assert_eq!(all(&acts), vec!["send Authenticate n3-a None Some(\"access\")"]);

    let mut auth = answer("n3-a");
    auth.auth_user_id = Some("me".to_string());
    let acts = client.handle_frame_with(&auth, &nonces("n4"));
    assert_eq!(all(&acts), vec!["send GetSelectedVoiceChannel n4-a None None"]);
    assert!(is_state(&client, "Authenticated"));

    let mut chan = answer("n4-a");
    chan.channel = Some(voice_channel("C1", Some("G1")));
    let acts = client.handle_frame_with(&chan, &nonces("n5"));
    assert_eq!(all(&acts), vec!["send GetGuild n5-a None Some(\"G1\")"]);

    let mut guild = answer("n5-a");
    guild.name = Some("The Guild".to_string());
    let acts = client.handle_frame_with(&guild, &nonces("n6"));
    assert_eq!(
        all(&acts),
        vec![
            "publish C1 Some(\"name-C1\") Some(\"The Guild\") Some(\"me\") labels=u1=Al,u2=bob,u3=u3,me=me",
            "ready Some(\"refresh\")",
            "send Subscribe n6-b Some(VoiceChannelSelect) None",
            "send Subscribe n6-c Some(SpeakingStart) Some(\"C1\")",
            "send Subscribe n6-d Some(SpeakingStop) Some(\"C1\")",
            "connected true",
        ]
    );
    assert!(is_state(&client, "Subscribed"));
    assert_eq!(client.current_channel(), Some("C1".to_string()));
    assert_eq!(client.pending_count(), 3);
}

#[test]
fn silent_reconnect_skips_authorize() {
    let mut client =
        DiscordRpcClient::new("app".to_string(), "secret".to_string(), "https://localhost".into());
    client.connect_with_refresh_token("access".to_string(), "kept".to_string());
    let acts = client.handle_frame_with(&event("READY"), &nonces("n1"));
    assert_eq!(all(&acts), vec!["send Authenticate n1-a None Some(\"access\")"]);
    let mut auth = answer("n1-a");
    auth.auth_user_id = Some("me".to_string());
    client.handle_frame_with(&auth, &nonces("n2"));
    let mut chan = answer("n2-a");
    chan.channel = Some(voice_channel("C1", None));
    let acts = client.handle_frame_with(&chan, &nonces("n3"));
    assert_eq!(describe(&acts[1]), "ready Some(\"kept\")");
    assert_eq!(describe(&acts[5]), "connected true");
}

#[test]
fn rpc_channel_switch() {
    let mut client = subscribed();
    assert_eq!(client.current_channel(), Some("C1".to_string()));

    let mut select = event("VOICE_CHANNEL_SELECT");
    select.channel_id = Some("C2".to_string());
    let acts = client.handle_frame_with(&select, &nonces("sel"));
    assert_eq!(all(&acts), vec!["send GetChannel sel-a None Some(\"C2\")"]);
    // The lookup waits in its own slot, not among the pending requests.
    assert!(!client.is_pending(&"sel-a".to_string()));

    let mut found = answer("sel-a");
    found.channel = Some(voice_channel("C2", Some("G2")));
    let acts = client.handle_frame_with(&found, &nonces("got"));
    assert_eq!(
        all(&acts),
        vec![
            "publish C2 Some(\"name-C2\") None Some(\"me\") labels=u1=Al,u2=bob,u3=u3,me=me",
            "send Unsubscribe got-a Some(SpeakingStart) Some(\"C1\")",
            "send Unsubscribe got-b Some(SpeakingStop) Some(\"C1\")",
            "send Subscribe got-c Some(SpeakingStart) Some(\"C2\")",
            "send Subscribe got-d Some(SpeakingStop) Some(\"C2\")",
        ]
    );
    assert_eq!(client.current_channel(), Some("C2".to_string()));
    assert!(client.is_pending(&"got-c".to_string()));
    assert!(client.is_pending(&"got-d".to_string()));
    assert!(!client.is_pending(&"got-a".to_string()));
}

#[test]
fn leaving_the_channel_clears_it() {
    let mut client = subscribed();
    let acts = client.handle_frame_with(&event("VOICE_CHANNEL_SELECT"), &nonces("sel"));
    assert_eq!(all(&acts), vec!["clear"]);
    assert_eq!(client.current_channel(), None);
}

#[test]
fn a_nonce_is_fulfilled_exactly_once() {
    let mut client = subscribed();
    assert!(client.is_pending(&"n5-c".to_string()));
    let acts = client.handle_frame_with(&answer("n5-c"), &nonces("x1"));
    assert_eq!(all(&acts), vec!["fulfill n5-c true"]);
    assert!(!client.is_pending(&"n5-c".to_string()));
    let again = client.handle_frame_with(&answer("n5-c"), &nonces("x2"));
    assert!(again.is_empty());
    let unknown = client.handle_frame_with(&answer("nobody"), &nonces("x3"));
    assert!(unknown.is_empty());
    assert_eq!(client.pending_count(), 2);
}

#[test]
fn an_answer_without_data_is_reported_as_such() {
    let mut client = subscribed();
    let mut empty = answer("n5-b");
    empty.has_data = false;
    let acts = client.handle_frame_with(&empty, &nonces("x1"));
    assert_eq!(all(&acts), vec!["fulfill n5-b false"]);
}

#[test]
fn speaking_events_are_delivered() {
    let mut client = subscribed();
    let mut start = event("SPEAKING_START");
    start.user_id = Some("u1".to_string());
    assert_eq!(all(&client.handle_frame_with(&start, &nonces("x"))), vec!["start u1"]);
    let mut stop = event("SPEAKING_STOP");
    stop.user_id = Some("u1".to_string());
    assert_eq!(all(&client.handle_frame_with(&stop, &nonces("x"))), vec!["stop u1"]);
    let missing = event("SPEAKING_START");
    assert!(client.handle_frame_with(&missing, &nonces("x")).is_empty());
}

#[test]
fn error_event_ends_the_connection() {
    let mut client = subscribed();
    let mut err = event("ERROR");
    err.message = Some("Invalid Origin".to_string());
    let acts = client.handle_frame_with(&err, &nonces("x"));
    assert_eq!(all(&acts), vec!["connected false", "fail Invalid Origin"]);
    assert!(is_state(&client, "Error(\"Invalid Origin\")"));
    assert_eq!(client.pending_count(), 0);
    assert!(client.handle_frame_with(&event("SPEAKING_START"), &nonces("y")).is_empty());
}

#[test]
fn handshake_error_is_enhanced() {
    let mut client =
        DiscordRpcClient::new("app".to_string(), "secret".to_string(), "https://localhost".into());
    client.connect();
    let mut err = event("ERROR");
    err.message = Some("Invalid Origin".to_string());
    let acts = client.handle_frame_with(&err, &nonces("x"));
    assert_eq!(acts.len(), 2);
    assert_eq!(describe(&acts[1]), format!("fail {}", enhance_error("Invalid Origin")));
    let mut client2 =
        DiscordRpcClient::new("app".to_string(), "secret".to_string(), "https://localhost".into());
    client2.connect();
    let acts = client2.handle_frame_with(&event("ERROR"), &nonces("x"));
    assert_eq!(describe(&acts[1]), "fail Unknown error");
}

#[test]
fn missing_code_and_missing_channel_fail_the_connect() {
    let mut client =
        DiscordRpcClient::new("app".to_string(), "secret".to_string(), "https://localhost".into());
    client.connect();
    client.handle_frame_with(&event("READY"), &nonces("n1"));
    let acts = client.handle_frame_with(&answer("n1-a"), &nonces("n2"));
    assert_eq!(
        describe(&acts[1]),
        "fail No authorization code. Did you approve in the Discord popup? If no popup appeared, check RPC Origin and Redirect URI."
    );

    let mut client =
        DiscordRpcClient::new("app".to_string(), "secret".to_string(), "https://localhost".into());
    client.connect_with_refresh_token("access".to_string(), "kept".to_string());
    client.handle_frame_with(&event("READY"), &nonces("n1"));
    client.handle_frame_with(&answer("n1-a"), &nonces("n2"));
    let acts = client.handle_frame_with(&answer("n2-a"), &nonces("n3"));
    assert_eq!(
        describe(&acts[1]),
        "fail Not in a voice channel. Join a voice channel in Discord first, then click Connect."
    );
}

#[test]
fn guild_lookup_failure_is_not_fatal() {
    let mut client =
        DiscordRpcClient::new("app".to_string(), "secret".to_string(), "https://localhost".into());
    client.connect_with_refresh_token("access".to_string(), "kept".to_string());
    client.handle_frame_with(&event("READY"), &nonces("n1"));
    client.handle_frame_with(&answer("n1-a"), &nonces("n2"));
    let mut chan = answer("n2-a");
    chan.channel = Some(voice_channel("C1", Some("G1")));
    client.handle_frame_with(&chan, &nonces("n3"));
    let mut err = answer("n3-a");
    err.evt = Some("ERROR".to_string());
    err.name = Some("ignored".to_string());
    let acts = client.handle_frame_with(&err, &nonces("n4"));
    assert_eq!(acts.len(), 6);
    assert!(describe(&acts[0]).starts_with("publish C1 Some(\"name-C1\") None None"));
    assert!(is_state(&client, "Subscribed"));
}

#[test]
fn closing_tears_the_connection_down() {
    let mut client = subscribed();
    let acts = client.handle_closed();
    assert_eq!(all(&acts), vec!["connected false"]);
    assert!(is_state(&client, "Disconnected"));
    assert_eq!(client.pending_count(), 0);
    assert!(client.handle_closed().is_empty());

    let mut early =
        DiscordRpcClient::new("app".to_string(), "secret".to_string(), "https://localhost".into());
    early.connect();
    let acts = early.handle_closed();
    assert_eq!(all(&acts), vec!["connected false", "fail Connection closed before READY"]);

    let mut mid =
        DiscordRpcClient::new("app".to_string(), "secret".to_string(), "https://localhost".into());
    mid.connect();
    mid.handle_frame_with(&event("READY"), &nonces("n1"));
    let acts = mid.handle_failure("Token exchange failed".to_string());
    assert_eq!(all(&acts), vec!["connected false", "fail Token exchange failed"]);
    assert!(is_state(&mid, "Error(\"Token exchange failed\")"));
}

#[test]
fn drawn_nonces_are_fresh() {
    let batch = draw_nonces();
    let list = [batch.a, batch.b, batch.c, batch.d];
    for n in &list {
        assert_eq!(n.chars().count(), 36);
        assert_eq!(n.matches('-').count(), 4);
    }
    for i in 0..4 {
        for j in (i + 1)..4 {
            assert_ne!(list[i], list[j]);
        }
    }
}

#[test]
fn handle_frame_draws_its_own_nonces() {
    let mut client =
        DiscordRpcClient::new("app".to_string(), "secret".to_string(), "https://localhost".into());
    client.connect();
    let acts = client.handle_frame(&event("READY"));
    assert_eq!(acts.len(), 1);
    match &acts[0] {
        RpcAction::Send(r) => {
            assert_eq!(r.cmd, Command::Authorize);
            assert_eq!(r.nonce.len(), 36);
            assert!(client.is_pending(&r.nonce));
            let mut code = answer(&r.nonce);
            code.code = Some("c".to_string());
            assert_eq!(all(&client.handle_frame(&code)), vec!["exchange c"]);
            let acts = client.handle_tokens("t".to_string(), None);
            assert_eq!(acts.len(), 1);
        }
        other => panic!("unexpected action {:?}", other),
    }
}

#[test]
fn event_names_are_classified() {
    assert_eq!(classify_event(&Some("READY".to_string())), EventKind::Ready);
    assert_eq!(classify_event(&Some("ERROR".to_string())), EventKind::Error);
    assert_eq!(
        classify_event(&Some("VOICE_CHANNEL_SELECT".to_string())),
        EventKind::VoiceChannelSelect
    );
    assert_eq!(classify_event(&Some("SPEAKING_START".to_string())), EventKind::SpeakingStart);
    assert_eq!(classify_event(&Some("SPEAKING_STOP".to_string())), EventKind::SpeakingStop);
    assert_eq!(classify_event(&Some("ready".to_string())), EventKind::Other);
    assert_eq!(classify_event(&None), EventKind::Other);
    assert_eq!(Subscription::SpeakingStart, Subscription::SpeakingStart);
}

#[test]
fn only_invalid_origin_is_enhanced() {
    assert_eq!(enhance_error("boom"), "boom");
    assert_eq!(
        enhance_error("x Invalid Origin y"),
        "x Invalid Origin y. Add https://localhost to your app's RPC Origins in the Discord Developer Portal. RPC Origin is separate from OAuth2 Redirects. If you don't see an RPC Origin field, your app may not have RPC access (RPC is in private beta)."
    );
    assert_eq!(enhance_error("invalid origin"), "invalid origin");
}

#[test]
fn labels_prefer_nick_then_username_then_id() {
    let states = Some(vec![
        state("u1", Some("alice"), Some("Al")),
        VoiceState { user: None, nick: Some("ghost".to_string()) },
        state("u2", Some("bob"), None),
        state("u3", None, None),
        state("u1", Some("alice"), None),
    ]);
    let labels = build_user_labels(&states, &Some("u2".to_string()));
    let got: Vec<(String, String)> =
        labels.iter().map(|l| (l.user_id.clone(), l.label.clone())).collect();
    assert_eq!(
        got,
        vec![
            ("u1".to_string(), "alice".to_string()),
            ("u2".to_string(), "bob".to_string()),
            ("u3".to_string(), "u3".to_string()),
        ]
    );
    let alone = build_user_labels(&None, &Some("me".to_string()));
    assert_eq!(alone.len(), 1);
    assert_eq!(alone[0].label, "me");
}

#[test]
fn refresh_token_rotation() {
    assert_eq!(refresh_token_to_save(Some("new".to_string()), "old".to_string()), "new");
    assert_eq!(refresh_token_to_save(None, "old".to_string()), "old");
    let saved = tokens_to_save("a".into(), "b".into(), "c".into(), Some("r".into())).unwrap();
    assert_eq!(saved.refresh_token, "r");
    assert_eq!(saved.client_id, "a");
    assert!(tokens_to_save("a".into(), "b".into(), "c".into(), None).is_none());
}

#[test]
fn shared_holder_tracks_channel_and_flag() {
    let mut shared = RpcShared::new();
    assert!(!is_rpc_connected(&shared));
    assert!(get_channel_info(&shared).is_none());
    assert_eq!(presence(&shared), Presence::Disconnected);
    set_rpc_connected(&mut shared, true);
    assert!(is_rpc_connected(&shared));
    assert_eq!(presence(&shared), Presence::Idle);
    let client = subscribed();
    drop(client);
    let labels = build_user_labels(&None, &None);
    set_channel_info(
        &mut shared,
        d_scribe::discord_rpc::ChannelInfo {
            channel_id: "C1".to_string(),
            channel_name: None,
            channel_type: None,
            guild_id: None,
            guild_name: None,
            self_user_id: None,
            user_labels: labels,
        },
    );
    assert_eq!(get_channel_info(&shared).unwrap().channel_id, "C1");
    assert_eq!(presence(&shared), Presence::InVoice);
    clear_channel_info(&mut shared);
    assert!(get_channel_info(&shared).is_none());
    assert!(is_rpc_connected(&shared));
}

#[test]
fn connection_state_is_reported() {
    let client = subscribed();
    assert!(matches!(client.connection_state(), RpcConnectionState::Subscribed));
    assert!(matches!(client.get_selected_voice_channel(), Ok(None)));
}
