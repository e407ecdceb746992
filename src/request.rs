use vstd::prelude::*;
use vstd::string::*;
use crate::enums::IterableOrSingle;
use crate::error::{Error, ErrorView};
use crate::mode::Mode;
use crate::retry::{turns, Message, Role};
use crate::text::{debug_quoted, quote_for_prompt};

verus! {

/// What the outgoing request needs besides its conversation.
#[derive(Debug, Clone, Copy, PartialEq, Eq, Structural)]
pub enum RequestFormat {
    /// The target type is attached as the one tool the model may call.
    Tools,
    /// The model is asked for a JSON object as its answer.
    JsonObject,
    /// Nothing besides the conversation.
    Plain,
}

/// Streaming is offered for lists of records in the JSON modes only.
pub open spec fn stream_supported<T>(model: IterableOrSingle<T>, mode: Mode, stream: bool) -> bool {
    !stream || (model is Iterable && mode != Mode::TOOLS)
}

/// Rejects a mode, arity and streaming combination that is not supported.
pub fn check_stream_support<T>(model: &IterableOrSingle<T>, mode: Mode, stream: bool) -> (r: Result<(), Error>)
    ensures
        r is Ok <==> stream_supported(*model, mode, stream),
        r is Err ==> r->Err_0 is NotImplementedError,
{
    if !stream {
        Ok(())
    } else if mode.is_tool_mode() {
        Err(Error::NotImplementedError(String::from_str("streaming is not supported in tool mode")))
    } else if !model.is_iterable() {
        Err(
            Error::NotImplementedError(
                String::from_str(
                    "stream=True is not supported when using response_model parameter for non-iterables",
                ),
            ),
        )
    } else {
        Ok(())
    }
}

/// The schema as the instruction quotes it: a single record's schema comes
/// with a reminder to return instances, quoted; a list's schema as it is.
pub open spec fn schema_block<T>(model: IterableOrSingle<T>, schema: Seq<char>) -> Seq<char> {
    match model {
        IterableOrSingle::Single(_) => "Make sure for each schema to return an instance of the JSON, not the schema itself, use commas to seperate the schema/schemas: "@
            + debug_quoted(schema),
        IterableOrSingle::Iterable(_) => schema,
    }
}

/// The instruction that carries the schema in the JSON modes.
pub open spec fn schema_instruction(block: Seq<char>) -> Seq<char> {
    "As a genius expert, your task is to understand the content and provide\n                the parsed objects in JSON that match the following json_schema:\n"@
        + block
        + "\n\n                Make sure to return instances of the JSON, not the schema itself"@
}

/// The request for a fenced answer that fenced-JSON mode adds.
pub open spec fn fence_request() -> Seq<char> {
    "Return the correct JSON response within a ```json codeblock. not the JSON_SCHEMA"@
}

/// The instruction joins a leading system turn, or becomes one.
pub open spec fn with_system_text(t: Seq<(Role, Seq<char>)>, text: Seq<char>) -> Seq<(Role, Seq<char>)> {
    if t.len() > 0 && t[0].0 == Role::System {
        t.update(0, (Role::System, t[0].1 + text))
    } else {
        t.insert(0, (Role::System, text))
    }
}

/// The conversation as prepared for the first attempt.
pub open spec fn prepared_turns<T>(
    t: Seq<(Role, Seq<char>)>,
    model: IterableOrSingle<T>,
    mode: Mode,
    schema: Seq<char>,
) -> Seq<(Role, Seq<char>)> {
    if mode == Mode::TOOLS {
        t
    } else {
        let t1 = if mode == Mode::MD_JSON {
            t.push((Role::User, fence_request()))
        } else {
            t
        };
        with_system_text(t1, schema_instruction(schema_block(model, schema)))
    }
}

/// What the request needs besides the conversation, by mode.
pub open spec fn format_for(mode: Mode) -> RequestFormat {
    match mode {
        Mode::TOOLS => RequestFormat::Tools,
        Mode::MD_JSON => RequestFormat::Plain,
        _ => RequestFormat::JsonObject,
    }
}

/// Prepares the conversation for the first attempt: in the JSON modes the
/// schema text `schema` is embedded in the leading system turn (fenced-JSON
/// mode also asks for a fenced answer); in tool mode the conversation is left
/// as it is and the target type goes to the request as a tool. Unsupported
/// streaming combinations are rejected before anything changes.
pub fn handle_response_model<T>(
    response_model: &IterableOrSingle<T>,
    mode: Mode,
    stream: bool,
    schema: &str,
    messages: &mut Vec<Message>,
) -> (r: Result<RequestFormat, Error>)
    ensures
        r is Ok <==> stream_supported(*response_model, mode, stream),
        r is Ok ==> r->Ok_0 == format_for(mode) && turns(final(messages)@) == prepared_turns(
            turns(old(messages)@),
            *response_model,
            mode,
            schema@,
        ),
        r is Err ==> r->Err_0 is NotImplementedError && final(messages)@ == old(messages)@,
{
    match check_stream_support(response_model, mode, stream) {
        Err(e) => {
            return Err(e);
        },
        Ok(()) => {},
    }
    if mode.is_tool_mode() {
        return Ok(RequestFormat::Tools);
    }
    let ghost start = turns(messages@);
    let block = if response_model.is_iterable() {
        String::from_str(schema)
    } else {
        let mut b = String::from_str(
            "Make sure for each schema to return an instance of the JSON, not the schema itself, use commas to seperate the schema/schemas: ",
        );
        let q = quote_for_prompt(schema);
        b.append(q.as_str());
        b
    };
    let mut text = String::from_str(
        "As a genius expert, your task is to understand the content and provide\n                the parsed objects in JSON that match the following json_schema:\n",
    );
    text.append(block.as_str());
    text.append("\n\n                Make sure to return instances of the JSON, not the schema itself");
    let format = if mode == Mode::MD_JSON {
        messages.push(Message { role: Role::User, content: String::from_str(
            "Return the correct JSON response within a ```json codeblock. not the JSON_SCHEMA",
        ) });
        assert(turns(messages@) =~= start.push((Role::User, fence_request())));
        RequestFormat::Plain
    } else {
        RequestFormat::JsonObject
    };
    let ghost t1 = turns(messages@);
    if messages.len() > 0 && messages[0].role == Role::System {
        let first = messages.remove(0);
        let mut content = first.content;
        content.append(text.as_str());
        messages.insert(0, Message { role: Role::System, content });
        assert(turns(messages@) =~= with_system_text(t1, text@));
    } else {
        messages.insert(0, Message { role: Role::System, content: text });
        assert(turns(messages@) =~= with_system_text(t1, text@));
    }
    Ok(format)
}

} // verus!
