//! Payloads on the wire: JSON text is read into the plain values that the
//! client decides on, and requests are written as JSON text.

use crate::discord_rpc::client::{Request, RpcPayload};
use crate::discord_rpc::events::{
    states_view, VoiceChannel, VoiceChannelModel, VoiceState, VoiceStateModel, VoiceStateUser,
};
use crate::discord_rpc::protocol::{Command, PayloadModel, RequestModel};
use crate::discord_rpc::wire::{
    argument_key, argument_key_text, command_name, command_text, subscription_name,
    subscription_text,
};
use crate::labels::opt_text;
use crate::text::{append_chars, append_str, decimal, decimal_text, text_of};
use vstd::prelude::*;
use vstd::string::StringExecFns;

verus! {

/// The text of the string that stands at a JSON Pointer in a JSON text;
/// none when the text is no JSON, when nothing stands at the pointer, or
/// when what stands there is no string.
pub uninterp spec fn json_text(text: Seq<char>, pointer: Seq<char>) -> Option<Seq<char>>;

/// The number that stands at a JSON Pointer in a JSON text, when it is a
/// whole number that fits 64 bits without sign; none otherwise.
pub uninterp spec fn json_number(text: Seq<char>, pointer: Seq<char>) -> Option<u64>;

/// The length of the array that stands at a JSON Pointer in a JSON text;
/// none when no array stands there.
pub uninterp spec fn json_length(text: Seq<char>, pointer: Seq<char>) -> Option<usize>;

/// Whether a value other than `null` stands at a JSON Pointer in a JSON
/// text.
pub uninterp spec fn json_has(text: Seq<char>, pointer: Seq<char>) -> bool;

/// A text written as a JSON string: in quotes, with what JSON asks to be
/// escaped escaped.
pub uninterp spec fn json_quoted(text: Seq<char>) -> Seq<char>;

/// `serde_json::from_str` reads a text as a JSON value, `Value::pointer`
/// looks a value up by a JSON Pointer, and `Value::as_str` gives the text
/// of a string value. The result is the outcome of the three on the given
/// text and pointer.
#[verifier::external_body]
fn text_at(text: &str, pointer: &str) -> (found: Option<String>)
    ensures
        opt_text(found) == json_text(text@, pointer@),
{
    let root = serde_json::from_str::<serde_json::Value>(text).ok()?;
    root.pointer(pointer)?.as_str().map(String::from)
}

/// `serde_json::from_str` reads a text as a JSON value, `Value::pointer`
/// looks a value up by a JSON Pointer, and `Value::as_u64` gives a number
/// that is a whole number of 64 bits without sign. The result is the
/// outcome of the three on the given text and pointer.
#[verifier::external_body]
fn number_at(text: &str, pointer: &str) -> (found: Option<u64>)
    ensures
        found == json_number(text@, pointer@),
{
    let root = serde_json::from_str::<serde_json::Value>(text).ok()?;
    root.pointer(pointer)?.as_u64()
}

/// `serde_json::from_str` reads a text as a JSON value, `Value::pointer`
/// looks a value up by a JSON Pointer, and `Value::as_array` gives the
/// elements of an array. The result is the number of those elements for
/// the given text and pointer.
#[verifier::external_body]
fn length_at(text: &str, pointer: &str) -> (found: Option<usize>)
    ensures
        found == json_length(text@, pointer@),
{
    let root = serde_json::from_str::<serde_json::Value>(text).ok()?;
    root.pointer(pointer)?.as_array().map(|list| list.len())
}

/// `serde_json::from_str` reads a text as a JSON value, `Value::pointer`
/// looks a value up by a JSON Pointer, and `Value::is_null` tells `null`
/// from every other value. The result says whether, for the given text
/// and pointer, a value was found that is not `null`.
#[verifier::external_body]
fn has_at(text: &str, pointer: &str) -> (found: bool)
    ensures
        found == json_has(text@, pointer@),
{
    match serde_json::from_str::<serde_json::Value>(text) {
        Ok(root) => root.pointer(pointer).map_or(false, |v| !v.is_null()),
        Err(_) => false,
    }
}

/// `Value::String` makes a JSON string of a text, and its `to_string`
/// writes it as JSON: the text in quotes, escaped as JSON asks.
#[verifier::external_body]
fn quoted(text: &str) -> (out: String)
    ensures
        out@ == json_quoted(text@),
{
    serde_json::Value::String(text.to_owned()).to_string()
}

/// The pointer to a field of the voice state with an index.
pub open spec fn state_pointer(index: nat, field: Seq<char>) -> Seq<char> {
    "/data/voice_states/"@ + decimal_text(index) + field
}

/// The voice state with an index, as a payload reports it. A state has a
/// user when the user's id is a string.
pub open spec fn state_of(text: Seq<char>, index: nat) -> VoiceStateModel {
    let user_id = json_text(text, state_pointer(index, "/user/id"@));
    VoiceStateModel {
        user_id,
        username: if user_id is Some {
            json_text(text, state_pointer(index, "/user/username"@))
        } else {
            None
        },
        nick: json_text(text, state_pointer(index, "/nick"@)),
    }
}

/// The voice states that a payload reports.
pub open spec fn states_of(text: Seq<char>) -> Seq<VoiceStateModel> {
    match json_length(text, "/data/voice_states"@) {
        Some(n) => Seq::new(n as nat, |i: int| state_of(text, i as nat)),
        None => Seq::empty(),
    }
}

/// The channel that a payload reports: there is one when the data has an
/// id that is a string.
pub open spec fn channel_of(text: Seq<char>) -> Option<VoiceChannelModel> {
    match json_text(text, "/data/id"@) {
        Some(id) => Some(
            VoiceChannelModel {
                id,
                name: json_text(text, "/data/name"@),
                guild_id: json_text(text, "/data/guild_id"@),
                channel_type: match json_number(text, "/data/type"@) {
                    Some(n) => Some((n % 256) as u8),
                    None => None,
                },
                voice_states: states_of(text),
            },
        ),
        None => None,
    }
}

/// What the client reads of a payload: nothing when the text is no JSON
/// or is `null`; otherwise each field as far as it is there.
pub open spec fn payload_of(text: Seq<char>) -> Option<PayloadModel> {
    if !json_has(text, ""@) {
        None
    } else {
        Some(
            PayloadModel {
                evt: json_text(text, "/evt"@),
                nonce: json_text(text, "/nonce"@),
                has_data: json_has(text, "/data"@),
                message: json_text(text, "/data/message"@),
                code: json_text(text, "/data/code"@),
                user_id: json_text(text, "/data/user_id"@),
                auth_user_id: json_text(text, "/data/user/id"@),
                channel_id: json_text(text, "/data/channel_id"@),
                channel: channel_of(text),
                name: json_text(text, "/data/name"@),
            },
        )
    }
}

fn pointer_to_state(index: usize, field: &str) -> (pointer: String)
    ensures
        pointer@ == state_pointer(index as nat, field@),
{
    let mut out: Vec<char> = Vec::new();
    append_str(&mut out, "/data/voice_states/");
    append_chars(&mut out, &decimal(index as u64));
    append_str(&mut out, field);
    proof {
        assert(out@ =~= state_pointer(index as nat, field@));
    }
    text_of(&out)
}

fn read_state(text: &str, index: usize) -> (state: VoiceState)
    ensures
        state@ == state_of(text@, index as nat),
{
    let user = match text_at(text, pointer_to_state(index, "/user/id").as_str()) {
        Some(id) => Some(
            VoiceStateUser {
                id,
                username: text_at(text, pointer_to_state(index, "/user/username").as_str()),
            },
        ),
        None => None,
    };
    VoiceState { user, nick: text_at(text, pointer_to_state(index, "/nick").as_str()) }
}

fn read_states(text: &str) -> (states: Option<Vec<VoiceState>>)
    ensures
        states_view(states) == states_of(text@),
{
    match length_at(text, "/data/voice_states") {
        None => None,
        Some(n) => {
            let mut list: Vec<VoiceState> = Vec::new();
            let mut i: usize = 0;
            while i < n
                invariant
                    i <= n,
                    list@.len() == i,
                    forall|k: int| 0 <= k < i ==> list@[k]@ == state_of(text@, k as nat),
                decreases n - i,
            {
                list.push(read_state(text, i));
                i = i + 1;
            }
            proof {
                assert(states_view(Some(list)) =~= states_of(text@));
            }
            Some(list)
        },
    }
}

fn read_channel(text: &str) -> (channel: Option<VoiceChannel>)
    ensures
        match channel {
            Some(ch) => Some(ch@),
            None => None,
        } == channel_of(text@),
{
    match text_at(text, "/data/id") {
        None => None,
        Some(id) => Some(
            VoiceChannel {
                id,
                name: text_at(text, "/data/name"),
                guild_id: text_at(text, "/data/guild_id"),
                channel_type: match number_at(text, "/data/type") {
                    Some(n) => Some((n % 256) as u8),
                    None => None,
                },
                voice_states: read_states(text),
            },
        ),
    }
}

/// Reads the JSON text of an incoming payload into the plain values that
/// the client decides on.
pub fn parse_payload(text: &str) -> (payload: Option<RpcPayload>)
    ensures
        match payload {
            Some(p) => Some(p@),
            None => None,
        } == payload_of(text@),
{
    if !has_at(text, "") {
        return None;
    }
    Some(
        RpcPayload {
            evt: text_at(text, "/evt"),
            nonce: text_at(text, "/nonce"),
            has_data: has_at(text, "/data"),
            message: text_at(text, "/data/message"),
            code: text_at(text, "/data/code"),
            user_id: text_at(text, "/data/user_id"),
            auth_user_id: text_at(text, "/data/user/id"),
            channel_id: text_at(text, "/data/channel_id"),
            channel: read_channel(text),
            name: text_at(text, "/data/name"),
        },
    )
}

/// The argument of a request as a member of its `args` object.
pub open spec fn argument_text(r: RequestModel) -> Seq<char> {
    match (argument_key_text(r.cmd), r.arg) {
        (Some(key), Some(value)) => json_quoted(key) + ":"@ + json_quoted(value),
        _ => Seq::empty(),
    }
}

/// The scopes that an authorization asks for, as a member of `args`.
pub open spec fn scopes_text(r: RequestModel) -> Seq<char> {
    if r.cmd == Command::Authorize {
        (if argument_text(r).len() > 0 {
            ","@
        } else {
            Seq::empty()
        }) + "\"scopes\":[\"rpc\",\"identify\"]"@
    } else {
        Seq::empty()
    }
}

/// The subscribed event of a request as a member of the envelope.
pub open spec fn event_text(r: RequestModel) -> Seq<char> {
    match r.evt {
        Some(evt) => ",\"evt\":"@ + json_quoted(subscription_text(evt)),
        None => Seq::empty(),
    }
}

/// A request as JSON text: the envelope `{cmd, nonce, [evt], args}`.
pub open spec fn request_text(r: RequestModel) -> Seq<char> {
    "{\"cmd\":"@ + json_quoted(command_text(r.cmd)) + ",\"nonce\":"@ + json_quoted(r.nonce)
        + event_text(r) + ",\"args\":{"@ + argument_text(r) + scopes_text(r) + "}}"@
}

/// Writes a request as JSON text.
pub fn render_request(request: &Request) -> (json: String)
    ensures
        json@ == request_text(
            RequestModel {
                cmd: request.cmd,
                nonce: request.nonce@,
                evt: request.evt,
                arg: opt_text(request.arg),
            },
        ),
{
    let ghost r = RequestModel {
        cmd: request.cmd,
        nonce: request.nonce@,
        evt: request.evt,
        arg: opt_text(request.arg),
    };
    let mut json: String = "{\"cmd\":".to_owned();
    json.append(quoted(command_name(request.cmd)).as_str());
    json.append(",\"nonce\":");
    json.append(quoted(request.nonce.as_str()).as_str());
    match request.evt {
        Some(evt) => {
            json.append(",\"evt\":");
            json.append(quoted(subscription_name(evt)).as_str());
        },
        None => {},
    }
    json.append(",\"args\":{");
    let ghost head = json@;
    let mut with_argument: bool = false;
    match (argument_key(request.cmd), &request.arg) {
        (Some(key), Some(value)) => {
            json.append(quoted(key).as_str());
            json.append(":");
            json.append(quoted(value.as_str()).as_str());
            with_argument = true;
            proof {
                reveal_strlit(":");
                assert(json_quoted(key@).len() + 1 + json_quoted(value@).len() > 0);
            }
        },
        _ => {},
    }
    proof {
        assert(json@ =~= head + argument_text(r));
        assert(with_argument == (argument_text(r).len() > 0));
    }
    if request.cmd == Command::Authorize {
        if with_argument {
            json.append(",");
        }
        json.append("\"scopes\":[\"rpc\",\"identify\"]");
    }
    proof {
        assert(json@ =~= head + argument_text(r) + scopes_text(r));
    }
    json.append("}}");
    proof {
        assert(json@ =~= request_text(r));
    }
    json
}

/// The handshake that opens a pipe connection, as JSON text.
pub open spec fn handshake_text(client_id: Seq<char>) -> Seq<char> {
    "{\"v\":1,\"client_id\":"@ + json_quoted(client_id) + "}"@
}

/// Writes the handshake `{v: 1, client_id}` as JSON text.
pub fn render_handshake(client_id: &str) -> (json: String)
    ensures
        json@ == handshake_text(client_id@),
{
    let mut json: String = "{\"v\":1,\"client_id\":".to_owned();
    json.append(quoted(client_id).as_str());
    json.append("}");
    json
}

} // verus!
