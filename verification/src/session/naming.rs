//! Session and project names made from a template.

use crate::text::{chars_of, replace_all, replace_chars, text_of};
use vstd::prelude::*;

verus! {

/// The moment a name is made for, as the three texts a template can ask
/// for: seconds since the epoch, the calendar date and the time of day.
#[derive(Debug)]
pub struct SessionStamp {
    pub timestamp: String,
    pub date: String,
    pub time: String,
}

/// The name that stands in for a guild or channel that has none.
pub open spec fn unknown_name() -> Seq<char> {
    seq!['U', 'n', 'k', 'n', 'o', 'w', 'n']
}

/// The template used when none is given.
pub open spec fn default_template() -> Seq<char> {
    "{guild}_{channel}_{timestamp}"@
}

/// Whether a character may not stand in a file name.
pub open spec fn is_unsafe_char(c: char) -> bool {
    c == '<' || c == '>' || c == ':' || c == '"' || c == '/' || c == '\\' || c == '|' || c == '?'
        || c == '*'
}

/// `s` with every character that may not stand in a file name replaced by
/// an underscore.
pub open spec fn sanitized(s: Seq<char>) -> Seq<char> {
    Seq::new(
        s.len(),
        |i: int|
            if is_unsafe_char(s[i]) {
                '_'
            } else {
                s[i]
            },
    )
}

/// The template with its five placeholders filled in, in this order:
/// guild, channel, timestamp, date, time.
pub open spec fn project_name_text(
    template: Seq<char>,
    guild: Option<Seq<char>>,
    channel: Option<Seq<char>>,
    timestamp: Seq<char>,
    date: Seq<char>,
    time: Seq<char>,
) -> Seq<char> {
    let g = match guild {
        Some(name) => name,
        None => unknown_name(),
    };
    let c = match channel {
        Some(name) => name,
        None => unknown_name(),
    };
    let with_guild = replace_all(template, "{guild}"@, g);
    let with_channel = replace_all(with_guild, "{channel}"@, c);
    let with_timestamp = replace_all(with_channel, "{timestamp}"@, timestamp);
    let with_date = replace_all(with_timestamp, "{date}"@, date);
    replace_all(with_date, "{time}"@, time)
}

/// The session id: the filled-in template, made safe for a file name.
pub open spec fn session_id_text(
    template: Seq<char>,
    guild: Option<Seq<char>>,
    channel: Option<Seq<char>>,
    timestamp: Seq<char>,
    date: Seq<char>,
    time: Seq<char>,
) -> Seq<char> {
    sanitized(project_name_text(template, guild, channel, timestamp, date, time))
}

fn name_or_unknown(name: Option<&str>) -> (chars: Vec<char>)
    ensures
        chars@ == match name {
            Some(n) => n@,
            None => unknown_name(),
        },
{
    match name {
        Some(n) => chars_of(n),
        None => {
            let v: Vec<char> = vec!['U', 'n', 'k', 'n', 'o', 'w', 'n'];
            proof {
                assert(v@ =~= unknown_name());
            }
            v
        },
    }
}

fn fill_template(
    template: &str,
    guild: Option<&str>,
    channel: Option<&str>,
    stamp: &SessionStamp,
) -> (chars: Vec<char>)
    ensures
        chars@ == project_name_text(
            template@,
            match guild {
                Some(n) => Some(n@),
                None => None,
            },
            match channel {
                Some(n) => Some(n@),
                None => None,
            },
            stamp.timestamp@,
            stamp.date@,
            stamp.time@,
        ),
{
    let g = name_or_unknown(guild);
    let c = name_or_unknown(channel);
    let raw = chars_of(template);
    let with_guild = replace_chars(&raw, &chars_of("{guild}"), &g);
    let with_channel = replace_chars(&with_guild, &chars_of("{channel}"), &c);
    let with_timestamp = replace_chars(&with_channel, &chars_of("{timestamp}"), &chars_of(stamp.timestamp.as_str()));
    let with_date = replace_chars(&with_timestamp, &chars_of("{date}"), &chars_of(stamp.date.as_str()));
    replace_chars(&with_date, &chars_of("{time}"), &chars_of(stamp.time.as_str()))
}

/// Fills the placeholders `{guild}`, `{channel}`, `{timestamp}`, `{date}`
/// and `{time}` of a template. A missing guild or channel reads `Unknown`.
pub fn format_project_name(
    template: &str,
    guild: Option<&str>,
    channel: Option<&str>,
    stamp: &SessionStamp,
) -> (name: String)
    ensures
        name@ == project_name_text(
            template@,
            match guild {
                Some(n) => Some(n@),
                None => None,
            },
            match channel {
                Some(n) => Some(n@),
                None => None,
            },
            stamp.timestamp@,
            stamp.date@,
            stamp.time@,
        ),
{
    let chars = fill_template(template, guild, channel, stamp);
    text_of(&chars)
}

/// Whether a character may not stand in a file name.
pub fn unsafe_in_file_name(c: char) -> (b: bool)
    ensures
        b == is_unsafe_char(c),
{
    c == '<' || c == '>' || c == ':' || c == '"' || c == '/' || c == '\\' || c == '|' || c == '?'
        || c == '*'
}

/// Replaces every character that may not stand in a file name by `_`.
pub fn sanitize_chars(chars: &Vec<char>) -> (out: Vec<char>)
    ensures
        out@ == sanitized(chars@),
{
    let mut out: Vec<char> = Vec::new();
    let mut i: usize = 0;
    while i < chars.len()
        invariant
            i <= chars@.len(),
            out@ == sanitized(chars@).take(i as int),
        decreases chars@.len() - i,
    {
        let c: char = chars[i];
        if unsafe_in_file_name(c) {
            out.push('_');
        } else {
            out.push(c);
        }
        i = i + 1;
        proof {
            assert(out@ =~= sanitized(chars@).take(i as int));
        }
    }
    proof {
        assert(sanitized(chars@).take(chars@.len() as int) =~= sanitized(chars@));
    }
    out
}

/// The session id for a template: its placeholders filled in as
/// `format_project_name` does, then made safe for a file name.
pub fn format_session_id(
    template: &str,
    guild: Option<&str>,
    channel: Option<&str>,
    stamp: &SessionStamp,
) -> (id: String)
    ensures
        id@ == session_id_text(
            template@,
            match guild {
                Some(n) => Some(n@),
                None => None,
            },
            match channel {
                Some(n) => Some(n@),
                None => None,
            },
            stamp.timestamp@,
            stamp.date@,
            stamp.time@,
        ),
{
    let chars = fill_template(template, guild, channel, stamp);
    text_of(&sanitize_chars(&chars))
}

} // verus!
