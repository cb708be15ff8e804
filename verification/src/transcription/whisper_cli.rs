//! The local speech-to-text binary: its arguments and its output.

use crate::text::texts_view;
use crate::labels::opt_text;
use crate::text::{
    append_chars, char_index, chars_of, contains_chars, contains_text, find_char, slice_chars,
    text_of, trim_chars, trimmed,
};
use crate::transcription::backend::TranscriptSegment;
use vstd::prelude::*;

verus! {

/// The settings of the local backend.
#[derive(Debug)]
pub struct WhisperCliBackend {
    pub model_path: Option<String>,
    pub binary_path: Option<String>,
    pub language_code: Option<String>,
}

impl WhisperCliBackend {
    /// The settings as given.
    pub fn new(
        model_path: Option<String>,
        binary_path: Option<String>,
        language_code: Option<String>,
    ) -> (backend: Self)
        ensures
            backend.model_path == model_path,
            backend.binary_path == binary_path,
            backend.language_code == language_code,
    {
        WhisperCliBackend { model_path, binary_path, language_code }
    }

    /// The backend's identifier.
    pub fn id(&self) -> (id: &'static str)
        ensures
            id@ == "whisper-cli"@,
    {
        "whisper-cli"
    }

    /// The backend's display name.
    pub fn name(&self) -> (name: &'static str)
        ensures
            name@ == "Whisper (CLI)"@,
    {
        "Whisper (CLI)"
    }

    /// The binary to run: the configured one, else `main`.
    pub fn binary(&self) -> (binary: String)
        ensures
            binary@ == match self.binary_path {
                Some(path) => path@,
                None => "main"@,
            },
    {
        match &self.binary_path {
            Some(path) => path.clone(),
            None => "main".to_owned(),
        }
    }

    /// The arguments for a run that prints the text: the model, the audio
    /// file, and the language when one is set. Without a model there is
    /// nothing to run.
    pub fn transcribe_args(&self, audio_path: &str) -> (args: Result<Vec<String>, String>)
        ensures
            args is Ok <==> self.model_path is Some,
            match args {
                Ok(list) => texts_view(list@) == seq!["-m"@, self.model_path->0@, "-f"@, audio_path@]
                    + language_args(opt_text(self.language_code)),
                Err(msg) => msg@ == "No model path configured"@,
            },
    {
        match &self.model_path {
            None => Err("No model path configured".to_owned()),
            Some(model) => {
                let mut list: Vec<String> = Vec::new();
                list.push("-m".to_owned());
                list.push(model.clone());
                list.push("-f".to_owned());
                list.push(audio_path.to_owned());
                match &self.language_code {
                    Some(code) => {
                        list.push("-l".to_owned());
                        list.push(code.clone());
                    },
                    None => {},
                }
                proof {
                    assert(texts_view(list@) =~= seq!["-m"@, model@, "-f"@, audio_path@]
                        + language_args(opt_text(self.language_code)));
                }
                Ok(list)
            },
        }
    }

    /// The segments that a run's text stands for: none for an empty text,
    /// else one segment without speaker or times that holds the text.
    pub fn segments_from_text(&self, text: String) -> (segments: Vec<TranscriptSegment>)
        ensures
            text@.len() == 0 ==> segments@.len() == 0,
            text@.len() > 0 ==> {
                &&& segments@.len() == 1
                &&& segments@[0].text@ == text@
                &&& segments@[0].start_ms == 0
                &&& segments@[0].end_ms == 0
                &&& segments@[0].speaker_id@.len() == 0
                &&& segments@[0].speaker_name is None
            },
    {
        let mut segments: Vec<TranscriptSegment> = Vec::new();
        if !text.as_str().is_empty() {
            segments.push(
                TranscriptSegment {
                    start_ms: 0,
                    end_ms: 0,
                    speaker_id: String::new(),
                    speaker_name: None,
                    text,
                },
            );
        }
        segments
    }
}

/// The language arguments: `-l` and the code, when a code is set.
pub open spec fn language_args(code: Option<Seq<char>>) -> Seq<Seq<char>> {
    match code {
        Some(c) => seq!["-l"@, c],
        None => Seq::empty(),
    }
}

/// The arguments of a run that writes its text to a file beside the
/// slice: `-m <model> -f <slice> [-l <lang>] -np -nt -otxt -of <base>`.
pub open spec fn slice_args(
    model: Seq<char>,
    slice: Seq<char>,
    code: Option<Seq<char>>,
    base: Seq<char>,
) -> Seq<Seq<char>> {
    seq!["-m"@, model, "-f"@, slice] + language_args(code) + seq![
        "-np"@,
        "-nt"@,
        "-otxt"@,
        "-of"@,
        base,
    ]
}

/// Builds the arguments of a run on one slice.
pub fn whisper_args(model: &str, slice: &str, language_code: &Option<String>, base: &str) -> (args:
    Vec<String>)
    ensures
        texts_view(args@) == slice_args(model@, slice@, opt_text(*language_code), base@),
{
    let mut args: Vec<String> = Vec::new();
    args.push("-m".to_owned());
    args.push(model.to_owned());
    args.push("-f".to_owned());
    args.push(slice.to_owned());
    match language_code {
        Some(code) => {
            args.push("-l".to_owned());
            args.push(code.clone());
        },
        None => {},
    }
    args.push("-np".to_owned());
    args.push("-nt".to_owned());
    args.push("-otxt".to_owned());
    args.push("-of".to_owned());
    args.push(base.to_owned());
    proof {
        assert(texts_view(args@) =~= slice_args(model@, slice@, opt_text(*language_code), base@));
    }
    args
}

/// The arrow that stands between the two times of a range.
pub open spec fn arrow() -> Seq<char> {
    "-->"@
}

/// What is kept of one line of output: nothing of an empty line; of a
/// line that begins with a bracketed time range, the text after the
/// closing bracket; any other line as it stands. White space at both ends
/// is dropped.
pub open spec fn kept_text(line: Seq<char>) -> Option<Seq<char>> {
    let t = trimmed(line);
    if t.len() == 0 {
        None
    } else if t[0] == '[' && contains_text(t, arrow()) {
        let k = char_index(t, ']', 0);
        if k < t.len() {
            let rest = trimmed(t.skip(k + 1));
            if rest.len() == 0 {
                None
            } else {
                Some(rest)
            }
        } else {
            None
        }
    } else {
        Some(t)
    }
}

/// The text so far with one more piece, a single space between pieces.
pub open spec fn joined(acc: Seq<char>, piece: Option<Seq<char>>) -> Seq<char> {
    match piece {
        None => acc,
        Some(p) => if acc.len() == 0 {
            p
        } else {
            acc + seq![' '] + p
        },
    }
}

/// The text of the lines of `raw` from position `from` on, added to `acc`.
pub open spec fn parsed_from(raw: Seq<char>, from: int, acc: Seq<char>) -> Seq<char>
    decreases raw.len() - from,
{
    if from < 0 || from > raw.len() {
        acc
    } else {
        let end = char_index(raw, '\n', from);
        let next = joined(acc, kept_text(raw.subrange(from, end)));
        if end >= raw.len() || end < from {
            next
        } else {
            parsed_from(raw, end + 1, next)
        }
    }
}

/// The text that the binary's output file stands for: what is kept of
/// each line, joined by single spaces.
pub open spec fn parsed_output(raw: Seq<char>) -> Seq<char> {
    trimmed(parsed_from(raw, 0, Seq::empty()))
}

fn keep_line(line: &Vec<char>) -> (kept: Option<Vec<char>>)
    ensures
        match kept {
            Some(v) => Some(v@),
            None => None,
        } == kept_text(line@),
{
    let t = trim_chars(line);
    if t.len() == 0 {
        return None;
    }
    if t[0] == '[' && contains_chars(&t, &chars_of("-->")) {
        let k: usize = find_char(&t, ']', 0);
        if k < t.len() {
            let tail = slice_chars(&t, k + 1, t.len());
            proof {
                assert(tail@ =~= t@.skip(k + 1));
            }
            let rest = trim_chars(&tail);
            if rest.len() == 0 {
                None
            } else {
                Some(rest)
            }
        } else {
            None
        }
    } else {
        Some(t)
    }
}

/// Reads the binary's output: empty lines are dropped, a leading time
/// range in brackets is cut off, and what is left is joined by single
/// spaces.
pub fn parse_whisper_output(raw: &str) -> (text: String)
    ensures
        text@ == parsed_output(raw@),
{
    let chars = chars_of(raw);
    let mut acc: Vec<char> = Vec::new();
    let mut from: usize = 0;
    loop
        invariant_except_break
            parsed_from(chars@, 0, Seq::empty()) == parsed_from(chars@, from as int, acc@),
        invariant
            from <= chars@.len(),
            chars@ == raw@,
        ensures
            acc@ == parsed_from(chars@, 0, Seq::empty()),
        decreases chars@.len() - from,
    {
        let end: usize = find_char(&chars, '\n', from);
        let line = slice_chars(&chars, from, end);
        let ghost before = acc@;
        match keep_line(&line) {
            Some(piece) => {
                if acc.len() > 0 {
                    acc.push(' ');
                }
                append_chars(&mut acc, &piece);
                proof {
                    assert(acc@ =~= joined(before, Some(piece@)));
                }
            },
            None => {},
        }
        if end >= chars.len() {
            break;
        }
        from = end + 1;
    }
    text_of(&trim_chars(&acc))
}

} // verus!
