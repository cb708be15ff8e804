//! Where the voice client listens: ten local pipes and ten local ports.

use crate::text::{append_str, decimal, decimal_text, text_of};
use vstd::prelude::*;

verus! {

/// The first of the ten WebSocket ports.
pub const RPC_PORT_FIRST: u16 = 6463;

/// The last of the ten WebSocket ports.
pub const RPC_PORT_LAST: u16 = 6472;

/// The protocol version announced to the voice client.
pub const RPC_VERSION: u32 = 1;

/// The WebSocket address of the voice client on a port.
pub open spec fn ws_url_text(port: u16, client_id: Seq<char>) -> Seq<char> {
    "ws://127.0.0.1:"@ + decimal_text(port as nat) + "/?v="@ + decimal_text(RPC_VERSION as nat)
        + "&client_id="@ + client_id + "&encoding=json"@
}

/// The name of the pipe endpoint with an index.
pub open spec fn pipe_name_text(index: u8) -> Seq<char> {
    "\\\\.\\pipe\\discord-ipc-"@ + decimal_text(index as nat)
}

/// The WebSocket address of the voice client on `port`.
pub fn ws_url(port: u16, client_id: &str) -> (url: String)
    ensures
        url@ == ws_url_text(port, client_id@),
{
    let mut out: Vec<char> = Vec::new();
    append_str(&mut out, "ws://127.0.0.1:");
    let digits = decimal(port as u64);
    crate::text::append_chars(&mut out, &digits);
    append_str(&mut out, "/?v=");
    let version = decimal(RPC_VERSION as u64);
    crate::text::append_chars(&mut out, &version);
    append_str(&mut out, "&client_id=");
    append_str(&mut out, client_id);
    append_str(&mut out, "&encoding=json");
    proof {
        assert(out@ =~= ws_url_text(port, client_id@));
    }
    text_of(&out)
}

/// The name of the pipe endpoint with the given index.
pub fn pipe_name(index: u8) -> (name: String)
    ensures
        name@ == pipe_name_text(index),
{
    let mut out: Vec<char> = Vec::new();
    append_str(&mut out, "\\\\.\\pipe\\discord-ipc-");
    let digits = decimal(index as u64);
    crate::text::append_chars(&mut out, &digits);
    proof {
        assert(out@ =~= pipe_name_text(index));
    }
    text_of(&out)
}

/// The port to try after `port` has refused: the next of the ten, or none
/// after the last.
pub fn next_port(port: u16) -> (next: Option<u16>)
    ensures
        next == (if RPC_PORT_FIRST <= port < RPC_PORT_LAST {
            Some((port + 1) as u16)
        } else {
            None
        }),
{
    if port >= RPC_PORT_FIRST && port < RPC_PORT_LAST {
        Some(port + 1)
    } else {
        None
    }
}

} // verus!
