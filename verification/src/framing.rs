//! Wire framings of the streaming backends.
//!
//! Two observed styles share one shape: transport chunks are buffered, each
//! complete line ending in `\n` is handled on its own, and a reserved signal
//! ends the stream.
//!
//! - Newline-delimited JSON: each trimmed non-empty line is parsed as one
//!   JSON object; the fragment is its `message.content` field, the end is a
//!   `done: true` field. Malformed lines are silently skipped.
//! - Server-sent events: only trimmed lines prefixed `data: ` carry data;
//!   the payload is either the literal `[DONE]` (end of stream) or a JSON
//!   object whose fragment sits at `choices[0].delta.content`.

use vstd::prelude::*;

verus! {

use vstd::string::StrSliceExecFns;
use crate::strings::{lemma_find_char_at, lemma_find_char_bounds, lemma_find_char_none, seq_is_prefix, spec_find_char, str_eq, trim_of, trim_str};

/// The text that lossy UTF-8 decoding yields for `bytes`.
pub uninterp spec fn lossy_utf8_of(bytes: Seq<u8>) -> Seq<char>;

/// The `message.content` text of one newline-delimited-style line, when the
/// line is a JSON object carrying one.
pub uninterp spec fn ndjson_content_of(line: Seq<char>) -> Option<Seq<char>>;

/// The `done` end-of-stream flag of one newline-delimited-style line; false
/// on a malformed line.
pub uninterp spec fn ndjson_done_of(line: Seq<char>) -> bool;

/// The `choices[0].delta.content` text of one server-sent-event data
/// payload, when the payload is a JSON object carrying one.
pub uninterp spec fn sse_content_of(data: Seq<char>) -> Option<Seq<char>>;

/// Relies on String::from_utf8_lossy: the decoded text is a function of the
/// bytes alone.
#[verifier::external_body]
fn decode_utf8_lossy(bytes: &[u8]) -> (r: String)
    ensures
        r@ == lossy_utf8_of(bytes@),
{
    String::from_utf8_lossy(bytes).into_owned()
}

/// Relies on serde_json::from_str::<Value> and Value::{get, as_str,
/// as_bool}: parses one line as a JSON object and reads the `content` field
/// under the `message` key and the boolean `done` field; a malformed line
/// yields no fragment and a false flag. The result is a function of the
/// line's characters alone.
#[verifier::external_body]
fn decode_ndjson_line(line: &str) -> (r: (Option<String>, bool))
    ensures
        r.0 is Some <==> ndjson_content_of(line@) is Some,
        (r.0 matches Some(s) ==> ndjson_content_of(line@) == Some(s@)),
        r.1 == ndjson_done_of(line@),
{
    let parsed: serde_json::Value = match serde_json::from_str(line) {
        Ok(v) => v,
        Err(_) => return (None, false),
    };
    let content = parsed
        .get("message")
        .and_then(|m| m.get("content"))
        .and_then(|c| c.as_str())
        .map(|c| c.to_owned());
    let done = parsed.get("done").and_then(|d| d.as_bool()).unwrap_or(false);
    (content, done)
}

/// Relies on serde_json::from_str::<Value> and Value::{get, as_str}: parses
/// one server-sent-event data payload as a JSON object and reads the text
/// under `choices[0].delta.content`; a malformed or fragment-free payload
/// yields nothing. The result is a function of the payload's characters
/// alone.
#[verifier::external_body]
fn decode_sse_data(data: &str) -> (r: Option<String>)
    ensures
        r is Some <==> sse_content_of(data@) is Some,
        (r matches Some(s) ==> sse_content_of(data@) == Some(s@)),
{
    let parsed: serde_json::Value = match serde_json::from_str(data) {
        Ok(v) => v,
        Err(_) => return None,
    };
    parsed
        .get("choices")
        .and_then(|c| c.get(0))
        .and_then(|c| c.get("delta"))
        .and_then(|d| d.get("content"))
        .and_then(|c| c.as_str())
        .map(|c| c.to_owned())
}

/// Buffer of transport text not yet terminated by a newline.
pub struct LineBuffer {
    text: String,
}

impl View for LineBuffer {
    type V = Seq<char>;

    closed spec fn view(&self) -> Seq<char> {
        self.text@
    }
}

impl LineBuffer {
    pub fn new() -> (r: LineBuffer)
        ensures
            r@ == Seq::<char>::empty(),
    {
        LineBuffer { text: String::new() }
    }

    /// Append one decoded transport chunk.
    pub fn push_text(&mut self, chunk: &str)
        ensures
            final(self)@ == old(self)@ + chunk@,
    {
        self.text.append(chunk);
    }

    /// Append one raw transport chunk, decoded lossily.
    pub fn push_bytes(&mut self, chunk: &[u8])
        ensures
            final(self)@ == old(self)@ + lossy_utf8_of(chunk@),
    {
        let decoded = decode_utf8_lossy(chunk);
        self.text.append(decoded.as_str());
    }

    /// Remove and return the first complete line, without its newline.
    pub fn pop_line(&mut self) -> (r: Option<String>)
        ensures
            spec_find_char(old(self)@, '\n') is None ==> r is None && *final(self) == *old(self),
            (spec_find_char(old(self)@, '\n') matches Some(p) ==> r matches Some(line) && line@ == old(
                self,
            )@.subrange(0, p) && final(self)@ == old(self)@.subrange(p + 1, old(self)@.len() as int)),
    {
        let n = self.text.as_str().unicode_len();
        let mut i: usize = 0;
        while i < n
            invariant
                *self == *old(self),
                n == self.text@.len(),
                i <= n,
                forall|j: int| 0 <= j < i ==> self.text@[j] != '\n',
            decreases n - i,
        {
            if self.text.as_str().get_char(i) == '\n' {
                proof {
                    lemma_find_char_at(self.text@, '\n', i as int);
                }
                let line = self.text.as_str().substring_char(0, i).to_owned();
                let rest = self.text.as_str().substring_char(i + 1, n).to_owned();
                self.text = rest;
                return Option::Some(line);
            }
            i += 1;
        }
        proof {
            lemma_find_char_none(self.text@, '\n');
        }
        Option::None
    }
}

/// The two wire styles.
#[derive(Debug, Clone, Copy, PartialEq, Eq, Structural)]
pub enum WireStyle {
    /// Newline-delimited JSON objects with `message.content` and `done`.
    NewlineJson,
    /// Server-sent events with `data: ` payloads and the `[DONE]` sentinel.
    ServerSentEvents,
}

/// What one complete raw line yields under the newline-delimited style: the
/// fragment, if any, and the end-of-stream flag.
pub open spec fn spec_ndjson_line(raw: Seq<char>) -> (Option<Seq<char>>, bool) {
    let line = trim_of(raw);
    if line.len() == 0 {
        (Option::None, false)
    } else {
        (ndjson_content_of(line), ndjson_done_of(line))
    }
}

/// What one complete raw line yields under the server-sent-event style.
pub open spec fn spec_sse_line(raw: Seq<char>) -> (Option<Seq<char>>, bool) {
    let line = trim_of(raw);
    if seq_is_prefix("data: "@, line) {
        let data = line.subrange("data: "@.len() as int, line.len() as int);
        if data == "[DONE]"@ {
            (Option::None, true)
        } else {
            (sse_content_of(data), false)
        }
    } else {
        (Option::None, false)
    }
}

/// What one complete raw line yields under `style`.
pub open spec fn spec_line_result(style: WireStyle, raw: Seq<char>) -> (Option<Seq<char>>, bool) {
    match style {
        WireStyle::NewlineJson => spec_ndjson_line(raw),
        WireStyle::ServerSentEvents => spec_sse_line(raw),
    }
}

/// Handle one complete raw line of the newline-delimited style.
fn handle_ndjson_line(raw: &str) -> (r: (Option<String>, bool))
    ensures
        r.0 is Some <==> spec_ndjson_line(raw@).0 is Some,
        (r.0 matches Some(s) ==> spec_ndjson_line(raw@).0 == Some(s@)),
        r.1 == spec_ndjson_line(raw@).1,
{
    let line = trim_str(raw);
    if line.as_str().unicode_len() == 0 {
        (Option::None, false)
    } else {
        decode_ndjson_line(line.as_str())
    }
}

/// Handle one complete raw line of the server-sent-event style.
fn handle_sse_line(raw: &str) -> (r: (Option<String>, bool))
    ensures
        r.0 is Some <==> spec_sse_line(raw@).0 is Some,
        (r.0 matches Some(s) ==> spec_sse_line(raw@).0 == Some(s@)),
        r.1 == spec_sse_line(raw@).1,
{
    proof {
        reveal_strlit("data: ");
    }
    let line = trim_str(raw);
    let n = line.as_str().unicode_len();
    if n < 6 {
        proof {
            assert(!seq_is_prefix("data: "@, line@));
        }
        return (Option::None, false);
    }
    let head = line.as_str().substring_char(0, 6);
    if !str_eq(head, "data: ") {
        return (Option::None, false);
    }
    let data = line.as_str().substring_char(6, n);
    if str_eq(data, "[DONE]") {
        (Option::None, true)
    } else {
        (decode_sse_data(data), false)
    }
}

fn handle_line(style: WireStyle, raw: &str) -> (r: (Option<String>, bool))
    ensures
        r.0 is Some <==> spec_line_result(style, raw@).0 is Some,
        (r.0 matches Some(s) ==> spec_line_result(style, raw@).0 == Some(s@)),
        r.1 == spec_line_result(style, raw@).1,
{
    match style {
        WireStyle::NewlineJson => handle_ndjson_line(raw),
        WireStyle::ServerSentEvents => handle_sse_line(raw),
    }
}

/// The fragment sequence one optional fragment contributes.
pub open spec fn content_seq(c: Option<Seq<char>>) -> Seq<Seq<char>> {
    match c {
        Option::Some(f) => seq![f],
        Option::None => Seq::empty(),
    }
}

/// What draining the buffered text yields: the fragments of the complete
/// lines in order, the end-of-stream flag, and the text left in the buffer.
/// Handling stops at the line that signals the end; lines after it stay
/// buffered.
pub open spec fn spec_drain(style: WireStyle, s: Seq<char>) -> (Seq<Seq<char>>, bool, Seq<char>)
    decreases s.len(),
    via spec_drain_decreases
{
    match spec_find_char(s, '\n') {
        Option::None => (Seq::empty(), false, s),
        Option::Some(p) => {
            let raw = s.subrange(0, p);
            let rest = s.subrange(p + 1, s.len() as int);
            let step = spec_line_result(style, raw);
            if step.1 {
                (content_seq(step.0), true, rest)
            } else {
                let tail = spec_drain(style, rest);
                (content_seq(step.0) + tail.0, tail.1, tail.2)
            }
        },
    }
}

#[via_fn]
proof fn spec_drain_decreases(style: WireStyle, s: Seq<char>) {
    lemma_find_char_bounds(s, '\n');
}

/// Everything one feed call produced: the fragments completed by the chunk,
/// in delivery order, and whether the stream's logical end was seen.
pub struct FeedResult {
    pub fragments: Vec<String>,
    pub done: bool,
}

/// Incremental decoder of one streaming response body.
pub struct StreamDecoder {
    style: WireStyle,
    buffer: LineBuffer,
}

impl View for StreamDecoder {
    type V = Seq<char>;

    closed spec fn view(&self) -> Seq<char> {
        self.buffer@
    }
}

impl StreamDecoder {
    pub closed spec fn spec_style(&self) -> WireStyle {
        self.style
    }

    pub fn new(style: WireStyle) -> (r: StreamDecoder)
        ensures
            r@ == Seq::<char>::empty(),
            r.spec_style() == style,
    {
        StreamDecoder { style, buffer: LineBuffer::new() }
    }

    /// Feed one raw transport chunk and handle every line it completes.
    pub fn feed_bytes(&mut self, chunk: &[u8]) -> (r: FeedResult)
        ensures
            ({
                let d = spec_drain(old(self).spec_style(), old(self)@ + lossy_utf8_of(chunk@));
                &&& r.fragments@.map_values(|s: String| s@) == d.0
                &&& r.done == d.1
                &&& final(self)@ == d.2
                &&& final(self).spec_style() == old(self).spec_style()
            }),
    {
        self.buffer.push_bytes(chunk);
        self.drain_lines()
    }

    /// Feed one already-decoded transport chunk.
    pub fn feed_text(&mut self, chunk: &str) -> (r: FeedResult)
        ensures
            ({
                let d = spec_drain(old(self).spec_style(), old(self)@ + chunk@);
                &&& r.fragments@.map_values(|s: String| s@) == d.0
                &&& r.done == d.1
                &&& final(self)@ == d.2
                &&& final(self).spec_style() == old(self).spec_style()
            }),
    {
        self.buffer.push_text(chunk);
        self.drain_lines()
    }

    fn drain_lines(&mut self) -> (r: FeedResult)
        ensures
            ({
                let d = spec_drain(old(self).spec_style(), old(self)@);
                &&& r.fragments@.map_values(|s: String| s@) == d.0
                &&& r.done == d.1
                &&& final(self)@ == d.2
                &&& final(self).spec_style() == old(self).spec_style()
            }),
    {
        let ghost buf0 = self.buffer@;
        let ghost style = self.style;
        let mut fragments: Vec<String> = Vec::new();
        let mut done = false;
        let mut more = true;

        proof {
            assert(fragments@.map_values(|s: String| s@) =~= Seq::<Seq<char>>::empty());
        }

        while more && !done
            invariant
                self.style == style,
                done ==> ({
                    let d = spec_drain(style, buf0);
                    &&& d.0 == fragments@.map_values(|s: String| s@)
                    &&& d.1 == true
                    &&& d.2 == self.buffer@
                }),
                !done ==> ({
                    let d = spec_drain(style, buf0);
                    let t = spec_drain(style, self.buffer@);
                    &&& d.0 == fragments@.map_values(|s: String| s@) + t.0
                    &&& d.1 == t.1
                    &&& d.2 == t.2
                }),
                !more ==> done || spec_find_char(self.buffer@, '\n') is None,
            decreases 2 * self.buffer@.len() + (if more {
                1int
            } else {
                0int
            }),
        {
            let ghost cur = self.buffer@;
            match self.buffer.pop_line() {
                Option::None => {
                    more = false;
                },
                Option::Some(raw) => {
                    proof {
                        lemma_find_char_bounds(cur, '\n');
                    }
                    let (content, end) = handle_line(self.style, raw.as_str());
                    let ghost step = spec_line_result(style, raw@);
                    let ghost frags_pre = fragments@.map_values(|s: String| s@);
                    match content {
                        Option::Some(f) => {
                            let ghost fv = f@;
                            fragments.push(f);
                            proof {
                                assert(fragments@.map_values(|s: String| s@) =~= frags_pre
                                    + content_seq(step.0));
                            }
                        },
                        Option::None => {
                            proof {
                                assert(fragments@.map_values(|s: String| s@) =~= frags_pre
                                    + content_seq(step.0));
                            }
                        },
                    }
                    if end {
                        done = true;
                    }
                    proof {
                        let d = spec_drain(style, buf0);
                        let t = spec_drain(style, cur);
                        let t2 = spec_drain(style, self.buffer@);
                        if step.1 {
                            assert(t.0 == content_seq(step.0));
                            assert(d.0 =~= fragments@.map_values(|s: String| s@));
                        } else {
                            assert(t.0 == content_seq(step.0) + t2.0);
                            assert(frags_pre + (content_seq(step.0) + t2.0) =~= (frags_pre
                                + content_seq(step.0)) + t2.0);
                        }
                    }
                },
            }
        }

        FeedResult { fragments, done }
    }
}

} // verus!
