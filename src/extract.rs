use vstd::prelude::*;
use vstd::string::*;
use crate::enums::{arguments_of, CompletionMessage, IterableOrSingle, ToolCall};
use crate::error::{text_result, Error, ErrorView};
use crate::mode::Mode;
use crate::text::{chars_of, join_with, string_of_range};

verus! {

/// The first position at or after `i` that holds `c`.
pub open spec fn first_index_from(s: Seq<char>, c: char, i: int) -> Option<int>
    decreases s.len() - i,
{
    if i < 0 || i >= s.len() {
        None
    } else if s[i] == c {
        Some(i)
    } else {
        first_index_from(s, c, i + 1)
    }
}

/// The last position before `n` that holds `c`.
pub open spec fn last_index_before(s: Seq<char>, c: char, n: int) -> Option<int>
    decreases n,
{
    if n <= 0 || n > s.len() {
        None
    } else if s[n - 1] == c {
        Some(n - 1)
    } else {
        last_index_before(s, c, n - 1)
    }
}

/// The text from the first `{` to the last `}`, both included, when both
/// exist in that order.
pub open spec fn json_span(s: Seq<char>) -> Option<Seq<char>> {
    match (first_index_from(s, '{', 0), last_index_before(s, '}', s.len() as int)) {
        (Some(f), Some(l)) => if f <= l {
            Some(s.subrange(f, l + 1))
        } else {
            None
        },
        _ => None,
    }
}

/// The position of the first `{` of `s`.
fn find_first_open(s: &Vec<char>) -> (r: Option<usize>)
    ensures
        match (r, first_index_from(s@, '{', 0)) {
            (Some(i), Some(j)) => i as int == j,
            (None, None) => true,
            _ => false,
        },
        r matches Some(i) ==> i < s@.len() && s@[i as int] == '{',
{
    let mut i: usize = 0;
    while i < s.len()
        invariant
            i <= s@.len(),
            first_index_from(s@, '{', 0) == first_index_from(s@, '{', i as int),
        decreases s@.len() - i,
    {
        if s[i] == '{' {
            return Some(i);
        }
        i = i + 1;
    }
    None
}

/// The position of the last `}` of `s`.
fn find_last_close(s: &Vec<char>) -> (r: Option<usize>)
    ensures
        match (r, last_index_before(s@, '}', s@.len() as int)) {
            (Some(i), Some(j)) => i as int == j,
            (None, None) => true,
            _ => false,
        },
        r matches Some(i) ==> i < s@.len() && s@[i as int] == '}',
{
    let mut n: usize = s.len();
    while n > 0
        invariant
            n <= s@.len(),
            last_index_before(s@, '}', s@.len() as int) == last_index_before(s@, '}', n as int),
        decreases n,
    {
        if s[n - 1] == '}' {
            return Some(n - 1);
        }
        n = n - 1;
    }
    None
}

/// The candidate JSON of a whole message: the text from its first `{` to its
/// last `}` (see `json_span`); an extraction error when there is none.
pub fn extract_json_from_codeblock(content: &str) -> (r: Result<String, Error>)
    ensures
        match json_span(content@) {
            Some(t) => r is Ok && r->Ok_0@ == t,
            None => r is Err && r->Err_0@ == ErrorView::JsonExtractionError("No JSON found"@),
        },
{
    let chars = chars_of(content);
    match (find_first_open(&chars), find_last_close(&chars)) {
        (Some(f), Some(l)) => {
            if f <= l {
                return Ok(string_of_range(&chars, f, l + 1));
            }
        },
        _ => {},
    }
    Err(Error::JsonExtractionError(String::from_str("No JSON found")))
}

/// Scanning from position `i` with `d` braces open: the position of the `}`
/// that brings the count back to zero.
pub open spec fn close_from(s: Seq<char>, i: int, d: int) -> Option<int>
    decreases s.len() - i,
{
    if i < 0 || i >= s.len() {
        None
    } else if s[i] == '{' {
        close_from(s, i + 1, d + 1)
    } else if s[i] == '}' && d == 1 {
        Some(i)
    } else if s[i] == '}' {
        close_from(s, i + 1, d - 1)
    } else {
        close_from(s, i + 1, d)
    }
}

/// The first balanced object of `s` and the text after it.
pub open spec fn first_object(s: Seq<char>, stack: int) -> Option<(Seq<char>, Seq<char>)> {
    match first_index_from(s, '{', 0) {
        Some(f) => match close_from(s, f, stack) {
            Some(i) => Some((s.subrange(f, i + 1), s.subrange(i + 1, s.len() as int))),
            None => None,
        },
        None => None,
    }
}

/// Cuts the first balanced object out of `s`, counting braces from its first
/// `{` with `stack` already open. Returns the object and the text after it, or
/// nothing and all of `s` when no object is complete yet.
pub fn get_object(s: &str, stack: usize) -> (r: (Option<String>, String))
    requires
        stack + s@.len() <= usize::MAX,
    ensures
        match first_object(s@, stack as int) {
            Some((obj, rest)) => r.0 is Some && r.0->Some_0@ == obj && r.1@ == rest,
            None => r.0 is None && r.1@ == s@,
        },
{
    let chars = chars_of(s);
    let n = chars.len();
    match find_first_open(&chars) {
        None => (None, string_of_range(&chars, 0, n)),
        Some(f) => {
            let mut i: usize = f;
            let mut depth: usize = stack;
            while i < n
                invariant
                    f <= i <= n == chars@.len() == s@.len(),
                    stack + n <= usize::MAX,
                    chars@[f as int] == '{',
                    chars@ == s@,
                    first_index_from(s@, '{', 0) == Some(f as int),
                    i > f ==> depth >= 1,
                    depth <= stack + (i - f),
                    close_from(chars@, f as int, stack as int) == close_from(chars@, i as int, depth as int),
                decreases n - i,
            {
                let c = chars[i];
                if c == '{' {
                    depth = depth + 1;
                } else if c == '}' && depth == 1 {
                    let obj = string_of_range(&chars, f, i + 1);
                    let rest = string_of_range(&chars, i + 1, n);
                    assert(close_from(chars@, i as int, depth as int) == Some(i as int));
                    assert(first_object(s@, stack as int) == Some((obj@, rest@)));
                    return (Some(obj), rest);
                } else if c == '}' {
                    depth = depth - 1;
                }
                i = i + 1;
            }
            assert(chars@.subrange(0, n as int) =~= chars@);
            (None, string_of_range(&chars, 0, n))
        },
    }
}

/// Where the last `::`-separated segment of `s` begins, looking for
/// separators from the left as `str::split` does.
pub open spec fn segment_start(s: Seq<char>, i: int, seg: int) -> int
    decreases s.len() - i,
{
    if i < 0 || i >= s.len() {
        seg
    } else if i + 1 < s.len() && s[i] == ':' && s[i + 1] == ':' {
        segment_start(s, i + 2, i + 2)
    } else {
        segment_start(s, i + 1, seg)
    }
}

/// The last `::`-separated segment of a path: the bare name of a type.
pub open spec fn last_segment(s: Seq<char>) -> Seq<char> {
    s.subrange(segment_start(s, 0, 0), s.len() as int)
}

/// The bare name of a type from its full path (`"a::b::Weather"` gives `"Weather"`).
pub fn model_name_of(type_path: &str) -> (r: String)
    ensures
        r@ == last_segment(type_path@),
{
    let chars = chars_of(type_path);
    let n = chars.len();
    let mut i: usize = 0;
    let mut seg: usize = 0;
    while i < n
        invariant
            n == chars@.len(),
            chars@ == type_path@,
            seg <= i <= n,
            segment_start(chars@, 0, 0) == segment_start(chars@, i as int, seg as int),
        decreases n - i,
    {
        if i + 1 < n && chars[i] == ':' && chars[i + 1] == ':' {
            i = i + 2;
            seg = i;
        } else {
            i = i + 1;
        }
    }
    string_of_range(&chars, seg, n)
}

/// What a tool invocation yields when the target type is named `model`: its
/// arguments if it names that type, an extraction error otherwise.
pub open spec fn tool_check(call: ToolCall, model: Seq<char>) -> Result<Seq<char>, ErrorView> {
    if call.name@ == model {
        Ok(call.arguments@)
    } else {
        Err(
            ErrorView::JsonExtractionError(
                "tool call name: "@ + call.name@ + " does not match model name: "@ + model,
            ),
        )
    }
}

/// Checks that a tool invocation names the target type and returns its arguments.
pub fn check_tool_call(call: &ToolCall, model_name: &str) -> (r: Result<String, Error>)
    ensures
        text_result(r) == tool_check(*call, model_name@),
{
    let model = String::from_str(model_name);
    if call.name == model {
        Ok(call.arguments.clone())
    } else {
        let mut m = String::from_str("tool call name: ");
        m.append(call.name.as_str());
        m.append(" does not match model name: ");
        m.append(model_name);
        Err(Error::JsonExtractionError(m))
    }
}

/// Every invocation must name the target type (the first that does not gives
/// the error); the batch is their arguments joined with commas.
pub open spec fn tools_batch(calls: Seq<ToolCall>, model: Seq<char>) -> Result<Seq<char>, ErrorView>
    decreases calls.len(),
{
    if calls.len() == 0 {
        Ok(seq![])
    } else {
        match tools_batch(calls.drop_last(), model) {
            Err(e) => Err(e),
            Ok(_) => match tool_check(calls.last(), model) {
                Err(e) => Err(e),
                Ok(_) => Ok(join_with(arguments_of(calls), ","@)),
            },
        }
    }
}

proof fn lemma_batch_error_stays(calls: Seq<ToolCall>, model: Seq<char>, k: int)
    requires
        0 <= k <= calls.len(),
        tools_batch(calls.take(k), model) is Err,
    ensures
        tools_batch(calls, model) == tools_batch(calls.take(k), model),
    decreases calls.len(),
{
    if calls.len() > k {
        assert(calls.drop_last().take(k) =~= calls.take(k));
        lemma_batch_error_stays(calls.drop_last(), model, k);
    } else {
        assert(calls.take(k) =~= calls);
    }
}

/// The payload of tool invocations (see `tools_batch`).
pub fn tools_payload(calls: &Vec<ToolCall>, model_name: &str) -> (r: Result<String, Error>)
    ensures
        text_result(r) == tools_batch(calls@, model_name@),
{
    let mut out = String::new();
    let mut i: usize = 0;
    assert(calls@.take(0) =~= Seq::<ToolCall>::empty());
    while i < calls.len()
        invariant
            i <= calls@.len(),
            tools_batch(calls@.take(i as int), model_name@) == Ok::<Seq<char>, ErrorView>(out@),
        decreases calls@.len() - i,
    {
        let ghost prefix = calls@.take(i + 1);
        assert(prefix.drop_last() =~= calls@.take(i as int));
        assert(prefix.last() == calls@[i as int]);
        assert(arguments_of(prefix).drop_last() =~= arguments_of(calls@.take(i as int)));
        match check_tool_call(&calls[i], model_name) {
            Err(e) => {
                proof {
                    lemma_batch_error_stays(calls@, model_name@, i + 1);
                }
                return Err(e);
            },
            Ok(args) => {
                if i > 0 {
                    out.append(",");
                }
                out.append(args.as_str());
                proof {
                    if i == 0 {
                        assert(out@ =~= arguments_of(prefix)[0]);
                    }
                }
            },
        }
        i = i + 1;
    }
    assert(calls@.take(calls@.len() as int) =~= calls@);
    Ok(out)
}

/// The payload of a message in tool mode: exactly one invocation for a single
/// record, any number for a list.
pub open spec fn tool_payload<T>(model: IterableOrSingle<T>, msg: CompletionMessage, name: Seq<char>) -> Result<
    Seq<char>,
    ErrorView,
> {
    match msg.tool_calls {
        None => Err(ErrorView::JsonExtractionError("No tool calls found"@)),
        Some(calls) => match model {
            IterableOrSingle::Single(_) => if calls@.len() != 1 {
                Err(ErrorView::JsonExtractionError("Expected exactly one tool call"@))
            } else {
                tool_check(calls@[0], name)
            },
            IterableOrSingle::Iterable(_) => tools_batch(calls@, name),
        },
    }
}

/// The payload of a message in the JSON modes: the span of its text from the
/// first `{` to the last `}`.
pub open spec fn json_payload(msg: CompletionMessage) -> Result<Seq<char>, ErrorView> {
    match msg.content {
        None => Err(ErrorView::JsonExtractionError("No content found"@)),
        Some(c) => match json_span(c@) {
            Some(t) => Ok(t),
            None => Err(ErrorView::JsonExtractionError("No JSON found"@)),
        },
    }
}

/// The payload of a complete message for the given mode and arity, the target
/// type being named `name`.
pub open spec fn payload_of<T>(
    model: IterableOrSingle<T>,
    msg: CompletionMessage,
    mode: Mode,
    name: Seq<char>,
) -> Result<Seq<char>, ErrorView> {
    if mode == Mode::TOOLS {
        tool_payload(model, msg, name)
    } else {
        json_payload(msg)
    }
}

/// Produces the raw payload of a complete message (see `payload_of`).
pub fn from_response<T>(
    model: &IterableOrSingle<T>,
    message: &CompletionMessage,
    mode: Mode,
    model_name: &str,
) -> (r: Result<String, Error>)
    ensures
        text_result(r) == payload_of(*model, *message, mode, model_name@),
{
    if mode.is_tool_mode() {
        match &message.tool_calls {
            None => Err(Error::JsonExtractionError(String::from_str("No tool calls found"))),
            Some(calls) => {
                if model.is_iterable() {
                    tools_payload(calls, model_name)
                } else if calls.len() != 1 {
                    Err(Error::JsonExtractionError(String::from_str("Expected exactly one tool call")))
                } else {
                    check_tool_call(&calls[0], model_name)
                }
            },
        }
    } else {
        match &message.content {
            None => Err(Error::JsonExtractionError(String::from_str("No content found"))),
            Some(c) => extract_json_from_codeblock(c.as_str()),
        }
    }
}

} // verus!
