//! The remote, OpenAI-compatible transcription endpoint: its settings and
//! the addresses derived from them.

use crate::labels::opt_text;
use crate::text::{
    append_chars, chars_of, slice_chars, text_of, trim_chars, trim_text, trimmed,
};
use vstd::prelude::*;

verus! {

/// Configuration for the remote transcription endpoint.
#[derive(Debug)]
pub struct RemoteTranscriptionConfig {
    pub base_url: String,
    pub model: String,
    pub api_key: Option<String>,
}

impl RemoteTranscriptionConfig {
    /// The settings, with white space around the address dropped.
    pub fn new(base_url: String, model: String, api_key: Option<String>) -> (config: Self)
        ensures
            config.base_url@ == trimmed(base_url@),
            config.model == model,
            config.api_key == api_key,
    {
        RemoteTranscriptionConfig { base_url: trim_text(base_url.as_str()), model, api_key }
    }
}

/// Whether an optional setting holds more than white space.
pub open spec fn is_set(value: Option<Seq<char>>) -> bool {
    match value {
        Some(v) => trimmed(v).len() > 0,
        None => false,
    }
}

fn has_text(value: &Option<String>) -> (b: bool)
    ensures
        b == is_set(opt_text(*value)),
{
    match value {
        Some(v) => !crate::text::is_blank(v.as_str()),
        None => false,
    }
}

/// Whether the remote endpoint is used: the mode is `remote`, and both
/// the address and the model are set.
pub fn use_remote(mode: &Option<String>, base_url: &Option<String>, model: &Option<String>) -> (b:
    bool)
    ensures
        b == (opt_text(*mode) == Some("remote"@) && is_set(opt_text(*base_url)) && is_set(
            opt_text(*model),
        )),
{
    let remote_mode: bool = match mode {
        Some(m) => m.eq(&"remote".to_owned()),
        None => false,
    };
    remote_mode && has_text(base_url) && has_text(model)
}

/// Position after the last character of `s[..upto]` that is not `/`.
pub open spec fn slash_start(s: Seq<char>, upto: int) -> int
    decreases upto,
{
    if upto <= 0 || upto > s.len() {
        0
    } else if s[upto - 1] != '/' {
        upto
    } else {
        slash_start(s, upto - 1)
    }
}

/// The host without white space around it and without slashes at its end.
pub open spec fn host_text(host: Seq<char>) -> Seq<char> {
    let t = trimmed(host);
    t.subrange(0, slash_start(t, t.len() as int))
}

/// The path of the model list: the given one, trimmed and with a slash in
/// front, or `/v1/models` when none is given.
pub open spec fn models_path_text(path: Option<Seq<char>>) -> Seq<char> {
    if is_set(path) {
        let t = trimmed(path->0);
        if t[0] == '/' {
            t
        } else {
            seq!['/'] + t
        }
    } else {
        "/v1/models"@
    }
}

/// The address of the model list.
pub open spec fn models_url_text(host: Seq<char>, path: Option<Seq<char>>) -> Seq<char> {
    host_text(host) + models_path_text(path)
}

/// Builds the address of the remote model list: `{host}{path}`, with
/// `/v1/models` for a missing or blank path.
pub fn models_url(host: &str, models_path: &Option<String>) -> (url: String)
    ensures
        url@ == models_url_text(host@, opt_text(*models_path)),
{
    let t = trim_chars(&chars_of(host));
    let mut end: usize = t.len();
    while end > 0 && t[end - 1] == '/'
        invariant
            end <= t@.len(),
            slash_start(t@, t@.len() as int) == slash_start(t@, end as int),
        decreases end,
    {
        end = end - 1;
    }
    let mut out = slice_chars(&t, 0, end);
    let ghost head = out@;
    let mut custom: bool = false;
    match models_path {
        Some(path) => {
            let p = trim_chars(&chars_of(path.as_str()));
            if p.len() > 0 {
                custom = true;
                if p[0] != '/' {
                    out.push('/');
                }
                append_chars(&mut out, &p);
            }
        },
        None => {},
    }
    if !custom {
        crate::text::append_str(&mut out, "/v1/models");
    }
    proof {
        assert(out@ =~= head + models_path_text(opt_text(*models_path)));
    }
    text_of(&out)
}

/// The key sent as a bearer token when listing models: the given key
/// without white space around it, unless that leaves nothing.
pub fn bearer_key(api_key: &Option<String>) -> (key: Option<String>)
    ensures
        opt_text(key) == (if is_set(opt_text(*api_key)) {
            Some(trimmed(api_key->0@))
        } else {
            None
        }),
{
    match api_key {
        Some(k) => {
            let t = trim_chars(&chars_of(k.as_str()));
            if t.len() > 0 {
                Some(text_of(&t))
            } else {
                None
            }
        },
        None => None,
    }
}

} // verus!
