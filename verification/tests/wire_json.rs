use d_scribe::discord_rpc::client::{DiscordRpcClient, NonceBatch, Request, RpcAction};
use d_scribe::discord_rpc::json::{parse_payload, render_handshake, render_request};
use d_scribe::discord_rpc::protocol::{Command, Subscription};

fn request(cmd: Command, evt: Option<Subscription>, arg: Option<&str>) -> Request {
    Request { cmd, nonce: "n-1".to_string(), evt, arg: arg.map(String::from) }
}

fn parsed(text: &str) -> serde_json::Value {
    serde_json::from_str(text).expect("valid JSON")
}

#[test]
fn payload_fields_are_read() {
    let text = r#"{"cmd":"DISPATCH","evt":"SPEAKING_START","nonce":null,"data":{"user_id":"42","channel_id":"7"}}"#;
    let p = parse_payload(text).expect("payload");
    assert_eq!(p.evt, Some("SPEAKING_START".to_string()));
    assert_eq!(p.nonce, None);
    assert!(p.has_data);
    assert_eq!(p.user_id, Some("42".to_string()));
    assert_eq!(p.channel_id, Some("7".to_string()));
    assert!(p.channel.is_none());
    assert_eq!(p.message, None);
    assert_eq!(p.code, None);
    assert_eq!(p.auth_user_id, None);
    assert_eq!(p.name, None);
}

#[test]
fn channel_payload_is_read() {
    let text = r#"{"cmd":"GET_CHANNEL","nonce":"abc","data":{"id":"C2","name":"Lobby","guild_id":"G","type":2,
        "voice_states":[
            {"nick":"Al","user":{"id":"u1","username":"alice"}},
            {"nick":null,"user":{"id":"u2"}},
            {"nick":"ghost"},
            {"user":{"id":5,"username":"numbered"}}
        ]}}"#;
    let p = parse_payload(text).expect("payload");
    assert_eq!(p.nonce, Some("abc".to_string()));
    assert_eq!(p.name, Some("Lobby".to_string()));
    let ch = p.channel.expect("channel");
    assert_eq!(ch.id, "C2");
    assert_eq!(ch.name, Some("Lobby".to_string()));
    assert_eq!(ch.guild_id, Some("G".to_string()));
    assert_eq!(ch.channel_type, Some(2));
    let states = ch.voice_states.expect("states");
    assert_eq!(states.len(), 4);
    let first = states[0].user.as_ref().expect("user");
    assert_eq!((first.id.as_str(), first.username.as_deref()), ("u1", Some("alice")));
    assert_eq!(states[0].nick, Some("Al".to_string()));
    let second = states[1].user.as_ref().expect("user");
    assert_eq!((second.id.as_str(), second.username.as_deref()), ("u2", None));
    assert_eq!(states[1].nick, None);
    assert!(states[2].user.is_none());
    assert_eq!(states[2].nick, Some("ghost".to_string()));
    assert!(states[3].user.is_none());
}

#[test]
fn odd_payloads() {
    assert!(parse_payload("not json").is_none());
    assert!(parse_payload("null").is_none());
    assert!(parse_payload("").is_none());
    let p = parse_payload(r#"{"evt":"ERROR","data":{"code":4000,"message":"Invalid Origin"}}"#)
        .expect("payload");
    assert_eq!(p.evt, Some("ERROR".to_string()));
    assert_eq!(p.message, Some("Invalid Origin".to_string()));
    assert_eq!(p.code, None);
    let p = parse_payload(r#"{"evt":7,"data":null}"#).expect("payload");
    assert_eq!(p.evt, None);
    assert!(!p.has_data);
    let p = parse_payload(r#"{"data":{"user":{"id":"me"},"type":258,"id":"c"}}"#).expect("payload");
    assert_eq!(p.auth_user_id, Some("me".to_string()));
    let ch = p.channel.expect("channel");
    assert_eq!(ch.channel_type, Some(2));
    assert!(ch.voice_states.is_none());
}

#[test]
fn requests_are_written_as_json() {
    let text = render_request(&request(Command::Authorize, None, Some("app-1")));
    assert_eq!(
        text,
        r#"{"cmd":"AUTHORIZE","nonce":"n-1","args":{"client_id":"app-1","scopes":["rpc","identify"]}}"#
    );
    let text = render_request(&request(Command::GetSelectedVoiceChannel, None, None));
    assert_eq!(text, r#"{"cmd":"GET_SELECTED_VOICE_CHANNEL","nonce":"n-1","args":{}}"#);
    let text = render_request(&request(
        Command::Subscribe,
        Some(Subscription::SpeakingStart),
        Some("C1"),
    ));
    assert_eq!(
        text,
        r#"{"cmd":"SUBSCRIBE","nonce":"n-1","evt":"SPEAKING_START","args":{"channel_id":"C1"}}"#
    );
    let text =
        render_request(&request(Command::Subscribe, Some(Subscription::VoiceChannelSelect), None));
    assert_eq!(text, r#"{"cmd":"SUBSCRIBE","nonce":"n-1","evt":"VOICE_CHANNEL_SELECT","args":{}}"#);
    let text = render_request(&request(Command::GetGuild, None, Some("G")));
    assert_eq!(text, r#"{"cmd":"GET_GUILD","nonce":"n-1","args":{"guild_id":"G"}}"#);
}

#[test]
fn texts_are_escaped() {
    let odd = "a\"b\\c\n\u{1}d/\u{e9}";
    let text = render_request(&request(Command::Authenticate, None, Some(odd)));
    let value = parsed(&text);
    assert_eq!(value["cmd"], "AUTHENTICATE");
    assert_eq!(value["args"]["access_token"], odd);
    let hello = render_handshake("id \"7\"");
    let value = parsed(&hello);
    assert_eq!(value["v"], 1);
    assert_eq!(value["client_id"], "id \"7\"");
    assert_eq!(render_handshake("123"), r#"{"v":1,"client_id":"123"}"#);
}

#[test]
fn rendered_requests_read_back_as_payloads() {
    let mut client = DiscordRpcClient::new("app".into(), "secret".into(), "origin".into());
    client.connect();
    let ready = parse_payload(r#"{"cmd":"DISPATCH","evt":"READY","data":{"v":1}}"#).unwrap();
    let batch = NonceBatch { a: "na".into(), b: "nb".into(), c: "nc".into(), d: "nd".into() };
    let acts = client.handle_frame_with(&ready, &batch);
    match &acts[0] {
        RpcAction::Send(r) => {
            let echoed = parse_payload(&render_request(r)).unwrap();
            assert_eq!(echoed.nonce, Some("na".to_string()));
            assert_eq!(echoed.evt, None);
            assert!(!echoed.has_data);
        }
        other => panic!("unexpected action {:?}", other),
    }
}
