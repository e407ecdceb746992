use vstd::prelude::*;
use vstd::string::*;
use crate::error::Error;
use crate::mode::Mode;
use crate::text::join_with;

verus! {

/// Whether a call expects exactly one record or any number of them; the
/// value carried is a template of the record type.
#[derive(Debug, Clone, Copy)]
pub enum IterableOrSingle<T> {
    Iterable(T),
    Single(T),
}

impl<T> IterableOrSingle<T> {
    /// The template carried, whatever the arity.
    pub fn unwrap(self) -> (r: T)
        ensures
            r == match self {
                IterableOrSingle::Iterable(t) => t,
                IterableOrSingle::Single(t) => t,
            },
    {
        match self {
            IterableOrSingle::Iterable(t) => t,
            IterableOrSingle::Single(t) => t,
        }
    }

    /// Whether any number of records is expected.
    pub fn is_iterable(&self) -> (r: bool)
        ensures
            r == self is Iterable,
    {
        match self {
            IterableOrSingle::Iterable(_) => true,
            IterableOrSingle::Single(_) => false,
        }
    }
}

/// A collection of records.
#[derive(Debug, Clone)]
pub enum Iterable<T> {
    VecWrapper(Vec<T>),
}

/// One tool invocation of a completion: the function named and its argument text.
#[derive(Debug, Clone)]
pub struct ToolCall {
    pub name: String,
    pub arguments: String,
}

/// The message of a completion: its text, and the tool invocations, if any.
#[derive(Debug, Clone)]
pub struct CompletionMessage {
    pub content: Option<String>,
    pub tool_calls: Option<Vec<ToolCall>>,
}

/// The argument texts of tool invocations.
pub open spec fn arguments_of(calls: Seq<ToolCall>) -> Seq<Seq<char>> {
    calls.map_values(|c: ToolCall| c.arguments@)
}

/// The argument texts joined with `sep`, built in order.
pub fn join_arguments(calls: &Vec<ToolCall>, sep: &str) -> (r: String)
    ensures
        r@ == join_with(arguments_of(calls@), sep@),
{
    let mut r = String::new();
    let mut i: usize = 0;
    while i < calls.len()
        invariant
            i <= calls@.len(),
            r@ == join_with(arguments_of(calls@).take(i as int), sep@),
        decreases calls@.len() - i,
    {
        proof {
            let parts = arguments_of(calls@);
            assert(parts.take(i + 1).drop_last() =~= parts.take(i as int));
        }
        if i > 0 {
            r.append(sep);
        }
        r.append(calls[i].arguments.as_str());
        proof {
            if i == 0 {
                assert(r@ =~= arguments_of(calls@).take(1)[0]);
            }
        }
        i = i + 1;
    }
    assert(arguments_of(calls@).take(calls@.len() as int) =~= arguments_of(calls@));
    r
}

/// What the transport hands back: one complete message, or a live stream of fragments.
pub enum ChatCompletionResponseWrapper<S> {
    AtOnce(CompletionMessage),
    Stream(S),
}

/// The text of the model's answer that a reask quotes back to it.
pub open spec fn answer_text<S>(r: ChatCompletionResponseWrapper<S>, mode: Mode) -> Option<Seq<char>> {
    match r {
        ChatCompletionResponseWrapper::AtOnce(m) => if mode == Mode::TOOLS {
            match m.tool_calls {
                Some(calls) => Some(join_with(arguments_of(calls@), ", "@)),
                None => None,
            }
        } else {
            match m.content {
                Some(c) => Some(c@),
                None => None,
            }
        },
        ChatCompletionResponseWrapper::Stream(_) => Some(seq![]),
    }
}

impl<S> ChatCompletionResponseWrapper<S> {
    /// The model's answer as text (see `answer_text`): the message text in the
    /// JSON modes, the tool arguments joined with `", "` in tool mode, and
    /// nothing for a stream, which is never reasked.
    pub fn get_llm_test_response(&self, mode: Mode) -> (r: Option<String>)
        ensures
            match (r, answer_text(*self, mode)) {
                (Some(t), Some(u)) => t@ == u,
                (None, None) => true,
                _ => false,
            },
    {
        match self {
            ChatCompletionResponseWrapper::AtOnce(m) => {
                if mode.is_tool_mode() {
                    match &m.tool_calls {
                        Some(calls) => Some(join_arguments(calls, ", ")),
                        None => None,
                    }
                } else {
                    match &m.content {
                        Some(c) => Some(c.clone()),
                        None => None,
                    }
                }
            },
            ChatCompletionResponseWrapper::Stream(_) => Some(String::new()),
        }
    }

    /// The complete message, or an error for a stream.
    #[allow(non_snake_case)]
    pub fn get_AtOnce(self) -> (r: Result<CompletionMessage, Error>)
        ensures
            match self {
                ChatCompletionResponseWrapper::AtOnce(m) => r == Ok::<CompletionMessage, Error>(m),
                ChatCompletionResponseWrapper::Stream(_) => r is Err && r->Err_0@
                    == crate::error::ErrorView::Generic("Got a stream"@),
            },
    {
        match self {
            ChatCompletionResponseWrapper::AtOnce(m) => Ok(m),
            ChatCompletionResponseWrapper::Stream(_) => Err(Error::Generic(String::from_str("Got a stream"))),
        }
    }
}

/// The records of a call: one, a list, or a lazily produced stream held as `S`.
pub enum InstructorResponse<T, S> {
    One(T),
    Many(Vec<T>),
    Stream(S),
}

impl<T, S> InstructorResponse<T, S> {
    /// The record of `One`; the last record of `Many`; an error for `Stream`,
    /// which cannot be unwrapped at once.
    pub fn unwrap(self) -> (r: Result<T, Error>)
        requires
            self matches InstructorResponse::Many(v) ==> v@.len() > 0,
        ensures
            match self {
                InstructorResponse::One(t) => r == Ok::<T, Error>(t),
                InstructorResponse::Many(v) => r == Ok::<T, Error>(v@.last()),
                InstructorResponse::Stream(_) => r is Err && r->Err_0@
                    == crate::error::ErrorView::Generic("Cannot unwrap a stream"@),
            },
    {
        match self {
            InstructorResponse::One(t) => Ok(t),
            InstructorResponse::Many(v) => {
                let mut v = v;
                match v.pop() {
                    Some(t) => Ok(t),
                    None => Err(Error::Generic(String::from_str("Cannot unwrap an empty list"))),
                }
            },
            InstructorResponse::Stream(_) => Err(Error::Generic(String::from_str("Cannot unwrap a stream"))),
        }
    }
}

} // verus!
