use vstd::prelude::*;
use vstd::string::*;
use std::collections::HashMap;
use crate::error::{Error, ErrorView};
use crate::mode::Mode;
use crate::text::{debug_quoted, quote_for_prompt, string_of};

verus! {

/// The increment of a streamed choice: some text, or nothing.
#[derive(Debug, Clone)]
pub enum Delta {
    Content { content: String },
    Empty {},
}

/// One choice of a streamed chunk.
#[derive(Debug, Clone)]
pub struct ChatCompletionChoiceStreaming {
    pub index: i64,
    pub delta: Delta,
    pub logprobs: Option<i32>,
    pub finish_reason: Option<String>,
}

/// One chunk of a streamed completion.
#[derive(Debug, Clone)]
pub struct ChatCompletionChunk {
    pub id: String,
    pub object: String,
    pub created: i64,
    pub model: String,
    pub choices: Vec<ChatCompletionChoiceStreaming>,
    pub system_fingerprint: Option<String>,
    pub headers: Option<HashMap<String, String>>,
}

/// One event of a streamed completion: a chunk, or the end of the stream.
#[derive(Debug, Clone)]
pub enum ChatCompletionStreamingResponse {
    Chunk(ChatCompletionChunk),
    Done,
}

/// What can go wrong while reading a stream of events; each carries a description.
#[derive(Debug, Clone)]
pub enum StreamingError {
    IoError(String),
    MinreqError(String),
    JsonError(String),
    ModelValidationError(String),
    Generic(String),
}

/// The short text of a streaming error, as `IoError(broken pipe)`.
pub open spec fn streaming_error_text(e: StreamingError) -> Seq<char> {
    match e {
        StreamingError::IoError(m) => "IoError("@ + m@ + ")"@,
        StreamingError::MinreqError(m) => "MinreqError("@ + m@ + ")"@,
        StreamingError::JsonError(m) => "JsonError("@ + m@ + ")"@,
        StreamingError::ModelValidationError(m) => "ModelValidationError("@ + m@ + ")"@,
        StreamingError::Generic(m) => "Own("@ + m@ + ")"@,
    }
}

/// The detailed text of a streaming error: its variant and its quoted description.
pub open spec fn streaming_error_debug(e: StreamingError) -> Seq<char> {
    match e {
        StreamingError::IoError(m) => "IoError("@ + debug_quoted(m@) + ")"@,
        StreamingError::MinreqError(m) => "MinreqError("@ + debug_quoted(m@) + ")"@,
        StreamingError::JsonError(m) => "JsonError("@ + debug_quoted(m@) + ")"@,
        StreamingError::ModelValidationError(m) => "ModelValidationError("@ + debug_quoted(m@) + ")"@,
        StreamingError::Generic(m) => "Generic("@ + debug_quoted(m@) + ")"@,
    }
}

impl StreamingError {
    /// The short text of this error (see `streaming_error_text`).
    pub fn describe(&self) -> (r: String)
        ensures
            r@ == streaming_error_text(*self),
    {
        let (head, m) = match self {
            StreamingError::IoError(m) => ("IoError(", m),
            StreamingError::MinreqError(m) => ("MinreqError(", m),
            StreamingError::JsonError(m) => ("JsonError(", m),
            StreamingError::ModelValidationError(m) => ("ModelValidationError(", m),
            StreamingError::Generic(m) => ("Own(", m),
        };
        let mut r = String::from_str(head);
        r.append(m.as_str());
        r.append(")");
        r
    }

    /// The detailed text of this error (see `streaming_error_debug`).
    pub fn describe_debug(&self) -> (r: String)
        ensures
            r@ == streaming_error_debug(*self),
    {
        let (head, m) = match self {
            StreamingError::IoError(m) => ("IoError(", m),
            StreamingError::MinreqError(m) => ("MinreqError(", m),
            StreamingError::JsonError(m) => ("JsonError(", m),
            StreamingError::ModelValidationError(m) => ("ModelValidationError(", m),
            StreamingError::Generic(m) => ("Generic(", m),
        };
        let mut r = String::from_str(head);
        let q = quote_for_prompt(m.as_str());
        r.append(q.as_str());
        r.append(")");
        r
    }
}

/// The text fragment a streamed chunk contributes in the JSON modes: the
/// content of its first choice, if any. Tool mode cannot be streamed.
pub open spec fn chunk_fragment(mode: Mode, chunk: ChatCompletionChunk) -> Result<Option<Seq<char>>, ErrorView> {
    if mode == Mode::TOOLS {
        Err(ErrorView::NotImplementedError("streaming is not supported in tool mode"@))
    } else if chunk.choices@.len() == 0 {
        Ok(None)
    } else {
        match chunk.choices@[0].delta {
            Delta::Content { content } => Ok(Some(content@)),
            Delta::Empty {  } => Ok(None),
        }
    }
}

/// Picks the text fragment of a streamed chunk (see `chunk_fragment`).
pub fn stream_fragment(mode: Mode, chunk: &ChatCompletionChunk) -> (r: Result<Option<String>, Error>)
    ensures
        match (r, chunk_fragment(mode, *chunk)) {
            (Ok(Some(t)), Ok(Some(u))) => t@ == u,
            (Ok(None), Ok(None)) => true,
            (Err(e), Err(f)) => e@ == f,
            _ => false,
        },
{
    if mode.is_tool_mode() {
        return Err(Error::NotImplementedError(String::from_str("streaming is not supported in tool mode")));
    }
    if chunk.choices.len() == 0 {
        return Ok(None);
    }
    match &chunk.choices[0].delta {
        Delta::Content { content } => Ok(Some(content.clone())),
        Delta::Empty {  } => Ok(None),
    }
}

/// The first position at or after `i` where `t` occurs in `s`.
pub open spec fn find_from(s: Seq<char>, t: Seq<char>, i: int) -> Option<int>
    decreases s.len() + 1 - i,
{
    if i < 0 || i + t.len() > s.len() {
        None
    } else if s.subrange(i, i + t.len()) == t {
        Some(i)
    } else {
        find_from(s, t, i + 1)
    }
}

/// Finds the first occurrence of `t` in `s`.
fn find_text(s: &Vec<char>, t: &Vec<char>) -> (r: Option<usize>)
    ensures
        match (r, find_from(s@, t@, 0)) {
            (Some(i), Some(j)) => i as int == j,
            (None, None) => true,
            _ => false,
        },
        r matches Some(i) ==> i + t@.len() <= s@.len(),
{
    let n = s.len();
    let mut i: usize = 0;
    while t.len() <= s.len() - i
        invariant
            i <= s@.len() == n,
            find_from(s@, t@, 0) == find_from(s@, t@, i as int),
        decreases s@.len() - i,
    {
        let mut k: usize = 0;
        let mut same = true;
        assert(s@.subrange(i as int, i as int) =~= t@.subrange(0, 0));
        while k < t.len()
            invariant
                i + t@.len() <= s@.len() == n,
                k <= t@.len(),
                same == (s@.subrange(i as int, i + k) == t@.subrange(0, k as int)),
            decreases t@.len() - k,
        {
            if s[i + k] != t[k] {
                same = false;
            }
            proof {
                let a = s@.subrange(i as int, i + k + 1);
                let b = t@.subrange(0, k + 1);
                assert(a.drop_last() =~= s@.subrange(i as int, i + k));
                assert(b.drop_last() =~= t@.subrange(0, k as int));
                if a == b {
                    assert(a.last() == b.last());
                }
                if s@.subrange(i as int, i + k) == t@.subrange(0, k as int) && s@[i + k] == t@[k as int] {
                    assert(a =~= b);
                }
            }
            k = k + 1;
        }
        assert(t@.subrange(0, t@.len() as int) =~= t@);
        if same {
            return Some(i);
        }
        i = i + 1;
    }
    None
}

/// A frame cut out of a stream of server-sent events.
#[derive(Debug, Clone)]
pub enum SseFrame {
    /// The JSON text of one `data:` event.
    Json(String),
    /// The `data: [DONE]` event.
    Done,
    /// An event end that came before any event start.
    Malformed,
}

/// A frame with its text as a character sequence.
pub enum FrameView {
    Json(Seq<char>),
    Done,
    Malformed,
}

pub open spec fn frame_view(f: SseFrame) -> FrameView {
    match f {
        SseFrame::Json(t) => FrameView::Json(t@),
        SseFrame::Done => FrameView::Done,
        SseFrame::Malformed => FrameView::Malformed,
    }
}

/// One byte of an event stream, read as the character of the same number:
/// once the text holds both an event start `data: {` and an event end `}`
/// followed by a newline, the JSON between them is a frame; otherwise the
/// `[DONE]` marker is one. A frame empties the buffer.
pub open spec fn sse_step(buf: Seq<char>, b: u8) -> (Seq<char>, Option<FrameView>) {
    let t = buf.push(b as char);
    match (find_from(t, "data: {"@, 0), find_from(t, "}\n"@, 0)) {
        (Some(s), Some(e)) => (seq![], Some(if s + 6 <= e + 1 {
            FrameView::Json(t.subrange(s + 6, e + 1))
        } else {
            FrameView::Malformed
        })),
        _ => if find_from(t, "data: [DONE]"@, 0) is Some {
            (seq![], Some(FrameView::Done))
        } else {
            (t, None)
        },
    }
}

/// Cuts server-sent events out of a byte stream (see `sse_step`).
pub struct SseFramer {
    buffer: Vec<char>,
}

impl View for SseFramer {
    type V = Seq<char>;

    closed spec fn view(&self) -> Seq<char> {
        self.buffer@
    }
}

impl SseFramer {
    /// A framer that has seen no bytes.
    pub fn new() -> (r: SseFramer)
        ensures
            r@ == Seq::<char>::empty(),
    {
        SseFramer { buffer: Vec::new() }
    }

    /// Consumes one byte; returns the frame it completes, if any.
    pub fn push_byte(&mut self, b: u8) -> (r: Option<SseFrame>)
        ensures
            final(self)@ == sse_step(old(self)@, b).0,
            match (r, sse_step(old(self)@, b).1) {
                (Some(f), Some(g)) => frame_view(f) == g,
                (None, None) => true,
                _ => false,
            },
    {
        self.buffer.push(b as char);
        let start_mark = crate::text::chars_of("data: {");
        let end_mark = crate::text::chars_of("}\n");
        let done_mark = crate::text::chars_of("data: [DONE]");
        proof {
            reveal_strlit("data: {");
            reveal_strlit("}\n");
        }
        let n = self.buffer.len();
        match (find_text(&self.buffer, &start_mark), find_text(&self.buffer, &end_mark)) {
            (Some(s), Some(e)) => {
                let frame = if s + 6 <= e + 1 {
                    SseFrame::Json(crate::text::string_of_range(&self.buffer, s + 6, e + 1))
                } else {
                    SseFrame::Malformed
                };
                self.buffer.clear();
                Some(frame)
            },
            _ => {
                if find_text(&self.buffer, &done_mark).is_some() {
                    self.buffer.clear();
                    Some(SseFrame::Done)
                } else {
                    None
                }
            },
        }
    }
}

/// A stream item after framing: a frame, or a read error passed on as a
/// generic error with the read error's short text.
pub open spec fn framed_item(f: Result<SseFrame, StreamingError>) -> Result<FrameView, Seq<char>> {
    match f {
        Ok(fr) => Ok(frame_view(fr)),
        Err(StreamingError::Generic(m)) => Err(m@),
        Err(_) => Err(seq![]),
    }
}

/// A byte stream framed: each byte goes through the framer and yields at most
/// one frame; each read error yields a generic error at once.
pub open spec fn frames_of(buf: Seq<char>, items: Seq<Result<(u8, usize), StreamingError>>) -> (
    Seq<char>,
    Seq<Result<FrameView, Seq<char>>>,
)
    decreases items.len(),
{
    if items.len() == 0 {
        (buf, seq![])
    } else {
        let (mid, out) = frames_of(buf, items.drop_last());
        match items.last() {
            Ok((b, _)) => {
                let (end, f) = sse_step(mid, b);
                match f {
                    Some(g) => (end, out.push(Ok(g))),
                    None => (end, out),
                }
            },
            Err(e) => (mid, out.push(Err(streaming_error_text(e)))),
        }
    }
}

/// Frames a whole byte stream of server-sent events (see `frames_of`).
pub fn process_streaming_response(stream: &Vec<Result<(u8, usize), StreamingError>>) -> (r: Vec<
    Result<SseFrame, StreamingError>,
>)
    ensures
        r@.map_values(|f: Result<SseFrame, StreamingError>| framed_item(f)) == frames_of(
            seq![],
            stream@,
        ).1,
{
    let mut framer = SseFramer::new();
    let mut out: Vec<Result<SseFrame, StreamingError>> = Vec::new();
    let mut i: usize = 0;
    assert(stream@.take(0) =~= Seq::<Result<(u8, usize), StreamingError>>::empty());
    assert(out@.map_values(|f: Result<SseFrame, StreamingError>| framed_item(f)) =~= seq![]);
    while i < stream.len()
        invariant
            i <= stream@.len(),
            (framer@, out@.map_values(|f: Result<SseFrame, StreamingError>| framed_item(f))) == frames_of(
                seq![],
                stream@.take(i as int),
            ),
        decreases stream@.len() - i,
    {
        let ghost prev = out@;
        assert(stream@.take(i + 1).drop_last() =~= stream@.take(i as int));
        assert(stream@.take(i + 1).last() == stream@[i as int]);
        match &stream[i] {
            Ok((b, _)) => {
                match framer.push_byte(*b) {
                    Some(f) => {
                        out.push(Ok(f));
                        assert(out@.map_values(|f: Result<SseFrame, StreamingError>| framed_item(f)) =~= prev.map_values(
                            |f: Result<SseFrame, StreamingError>| framed_item(f),
                        ).push(Ok(frame_view(f))));
                    },
                    None => {},
                }
            },
            Err(e) => {
                let m = e.describe();
                out.push(Err(StreamingError::Generic(m)));
                assert(out@.map_values(|f: Result<SseFrame, StreamingError>| framed_item(f)) =~= prev.map_values(
                    |f: Result<SseFrame, StreamingError>| framed_item(f),
                ).push(Err(streaming_error_text(*e))));
            },
        }
        i = i + 1;
    }
    assert(stream@.take(i as int) =~= stream@);
    out
}

/// The text of a byte stream: each byte read as the character of the same
/// number, each read error as `Error: ` and its detailed text.
pub open spec fn collected_text(items: Seq<Result<(u8, usize), StreamingError>>) -> Seq<char>
    decreases items.len(),
{
    if items.len() == 0 {
        seq![]
    } else {
        collected_text(items.drop_last()) + match items.last() {
            Ok((b, _)) => seq![b as char],
            Err(e) => "Error: "@ + streaming_error_debug(e),
        }
    }
}

/// Reads a whole byte stream into text (see `collected_text`).
pub fn collect_stream(stream: &Vec<Result<(u8, usize), StreamingError>>) -> (r: String)
    ensures
        r@ == collected_text(stream@),
{
    let mut buffer = String::new();
    let mut i: usize = 0;
    assert(stream@.take(0) =~= Seq::<Result<(u8, usize), StreamingError>>::empty());
    while i < stream.len()
        invariant
            i <= stream@.len(),
            buffer@ == collected_text(stream@.take(i as int)),
        decreases stream@.len() - i,
    {
        assert(stream@.take(i + 1).drop_last() =~= stream@.take(i as int));
        assert(stream@.take(i + 1).last() == stream@[i as int]);
        match &stream[i] {
            Ok((b, _)) => {
                let one = string_of(&[*b as char]);
                buffer.append(one.as_str());
            },
            Err(e) => {
                buffer.append("Error: ");
                let d = e.describe_debug();
                buffer.append(d.as_str());
            },
        }
        i = i + 1;
    }
    assert(stream@.take(i as int) =~= stream@);
    buffer
}

/// A recorded stream of server-sent events of a chat completion, for trying
/// the framing without a network.
pub const CACHED_EVENTS: &'static str = r#"
    data: {"id":"chatcmpl-9A0hcaguAav3PrvNA54IFivY2API7","object":"chat.completion.chunk","created":1712173008,"model":"gpt-4-0125-preview","system_fingerprint":"fp_b77cb481ed","choices":[{"index":0,"delta":{"role":"assistant","content":""},"logprobs":null,"finish_reason":null}]}

    data: {"id":"chatcmpl-9A0hcaguAav3PrvNA54IFivY2API7","object":"chat.completion.chunk","created":1712173008,"model":"gpt-4-0125-preview","system_fingerprint":"fp_b77cb481ed","choices":[{"index":0,"delta":{"content":"In"},"logprobs":null,"finish_reason":null}]}
    
    data: {"id":"chatcmpl-9A0hcaguAav3PrvNA54IFivY2API7","object":"chat.completion.chunk","created":1712173008,"model":"gpt-4-0125-preview","system_fingerprint":"fp_b77cb481ed","choices":[{"index":0,"delta":{"content":"novation"},"logprobs":null,"finish_reason":null}]}
    
    data: {"id":"chatcmpl-9A0hcaguAav3PrvNA54IFivY2API7","object":"chat.completion.chunk","created":1712173008,"model":"gpt-4-0125-preview","system_fingerprint":"fp_b77cb481ed","choices":[{"index":0,"delta":{"content":","},"logprobs":null,"finish_reason":null}]}
    
    data: {"id":"chatcmpl-9A0hcaguAav3PrvNA54IFivY2API7","object":"chat.completion.chunk","created":1712173008,"model":"gpt-4-0125-preview","system_fingerprint":"fp_b77cb481ed","choices":[{"index":0,"delta":{"content":" Collaboration"},"logprobs":null,"finish_reason":null}]}
    
    data: {"id":"chatcmpl-9A0hcaguAav3PrvNA54IFivY2API7","object":"chat.completion.chunk","created":1712173008,"model":"gpt-4-0125-preview","system_fingerprint":"fp_b77cb481ed","choices":[{"index":0,"delta":{"content":","},"logprobs":null,"finish_reason":null}]}
    
    data: {"id":"chatcmpl-9A0hcaguAav3PrvNA54IFivY2API7","object":"chat.completion.chunk","created":1712173008,"model":"gpt-4-0125-preview","system_fingerprint":"fp_b77cb481ed","choices":[{"index":0,"delta":{"content":" Sustainability"},"logprobs":null,"finish_reason":null}]}
    
    data: {"id":"chatcmpl-9A0hcaguAav3PrvNA54IFivY2API7","object":"chat.completion.chunk","created":1712173008,"model":"gpt-4-0125-preview","system_fingerprint":"fp_b77cb481ed","choices":[{"index":0,"delta":{},"logprobs":null,"finish_reason":"stop"}]}
    
    data: [DONE]"#;

/// The bytes of `CACHED_EVENTS`, each with its position.
pub fn cached_streamer() -> (r: Vec<Result<(u8, usize), StreamingError>>)
    ensures
        r@.len() == CACHED_EVENTS.spec_bytes().len(),
        forall|i: int|
            0 <= i < r@.len() ==> #[trigger] r@[i] == Ok::<(u8, usize), StreamingError>(
                (CACHED_EVENTS.spec_bytes()[i], i as usize),
            ),
{
    let bytes = CACHED_EVENTS.as_bytes();
    let mut out: Vec<Result<(u8, usize), StreamingError>> = Vec::new();
    let mut i: usize = 0;
    while i < bytes.len()
        invariant
            i <= bytes@.len(),
            bytes@ == CACHED_EVENTS.spec_bytes(),
            out@.len() == i,
            forall|j: int|
                0 <= j < i ==> #[trigger] out@[j] == Ok::<(u8, usize), StreamingError>((bytes@[j], j as usize)),
        decreases bytes@.len() - i,
    {
        out.push(Ok((bytes[i], i)));
        i = i + 1;
    }
    out
}

} // verus!
