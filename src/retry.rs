use vstd::prelude::*;
use vstd::string::*;
use crate::enums::InstructorResponse;
use crate::error::{error_text, is_retryable, Error, ErrorView};
use crate::mode::Mode;

verus! {

/// Who speaks a turn of a conversation.
#[derive(Debug, Clone, Copy, PartialEq, Eq, Structural)]
pub enum Role {
    System,
    User,
    Assistant,
}

/// One turn of a conversation.
#[derive(Debug, Clone)]
pub struct Message {
    pub role: Role,
    pub content: String,
}

/// The turns of a conversation as roles and texts.
pub open spec fn turns(v: Seq<Message>) -> Seq<(Role, Seq<char>)> {
    v.map_values(|m: Message| (m.role, m.content@))
}

/// The corrective request that follows a failed answer: fenced-JSON mode asks
/// for a corrected JSON answer, the other modes ask to recall the function
/// correctly; both cite the failure.
pub open spec fn reask_text(mode: Mode, e: Error) -> Seq<char> {
    if mode == Mode::MD_JSON {
        "Correct your JSON ONLY RESPONSE, based on the following errors:\n"@ + error_text(e) + "\n"@
    } else {
        "Recall the function correctly, fix the errors, exceptions found\n"@ + error_text(e)
    }
}

/// The two turns a reask appends: the model's failed answer, then the
/// corrective request.
pub open spec fn reask_turns(answer: Seq<char>, mode: Mode, e: Error) -> Seq<(Role, Seq<char>)> {
    seq![(Role::Assistant, answer), (Role::User, reask_text(mode, e))]
}

/// Builds the two turns of a reask (see `reask_turns`).
pub fn reask_messages(model_message: String, mode: Mode, exception: &Error) -> (r: Vec<Message>)
    ensures
        turns(r@) == reask_turns(model_message@, mode, *exception),
{
    let ghost answer = model_message@;
    let assistant = Message { role: Role::Assistant, content: model_message };
    let mut text = if mode == Mode::MD_JSON {
        String::from_str("Correct your JSON ONLY RESPONSE, based on the following errors:\n")
    } else {
        String::from_str("Recall the function correctly, fix the errors, exceptions found\n")
    };
    let detail = exception.message();
    text.append(detail.as_str());
    if mode == Mode::MD_JSON {
        text.append("\n");
    }
    let user = Message { role: Role::User, content: text };
    let r = vec![assistant, user];
    assert(turns(r@) =~= reask_turns(answer, mode, *exception));
    r
}

/// Where an extraction call stands.
#[derive(Debug, Clone, Copy, PartialEq, Eq, Structural)]
pub enum RetryState {
    /// A request is to be sent; this is attempt number `n`, counting from zero.
    Attempting(usize),
    Succeeded,
    FailedFatal,
    Exhausted,
}

/// What an attempt came to, as far as the call's course is concerned.
pub enum Outcome {
    TransportFailure,
    Success,
    Retryable,
    Fatal,
}

/// The state before the first attempt: nothing is sent when no attempt is allowed.
pub open spec fn initial_state(max_retries: usize) -> RetryState {
    if max_retries == 0 {
        RetryState::Exhausted
    } else {
        RetryState::Attempting(0)
    }
}

/// The transitions: a transport failure or a fatal error ends the call, as
/// does any failure of a stream; a success ends it; a retryable failure of a
/// complete message leads to the next attempt while attempts remain, and to
/// exhaustion after the last one.
pub open spec fn next_state(s: RetryState, max_retries: usize, streaming: bool, o: Outcome) -> RetryState {
    match s {
        RetryState::Attempting(n) => match o {
            Outcome::TransportFailure => RetryState::FailedFatal,
            Outcome::Success => RetryState::Succeeded,
            Outcome::Fatal => RetryState::FailedFatal,
            Outcome::Retryable => if streaming {
                RetryState::FailedFatal
            } else if n + 1 < max_retries {
                RetryState::Attempting((n + 1) as usize)
            } else {
                RetryState::Exhausted
            },
        },
        _ => s,
    }
}

/// What one attempt brought back: the transport failed with a description,
/// or the response was processed, with the model's answer as text and the
/// result of extraction and validation.
pub enum Event<T, S> {
    TransportFailed(String),
    Processed { answer: String, outcome: Result<InstructorResponse<T, S>, Error> },
}

/// The course-relevant class of an event.
pub open spec fn outcome_of<T, S>(e: Event<T, S>) -> Outcome {
    match e {
        Event::TransportFailed(_) => Outcome::TransportFailure,
        Event::Processed { outcome: Ok(_), .. } => Outcome::Success,
        Event::Processed { outcome: Err(err), .. } => if is_retryable(err) {
            Outcome::Retryable
        } else {
            Outcome::Fatal
        },
    }
}

/// The state after `k` retryable failures of complete messages in a row.
pub open spec fn after_failures(max_retries: usize, k: nat) -> RetryState
    decreases k,
{
    if k == 0 {
        initial_state(max_retries)
    } else {
        next_state(after_failures(max_retries, (k - 1) as nat), max_retries, false, Outcome::Retryable)
    }
}

/// When every answer fails in a way that a reask may repair, exactly
/// `max_retries` requests are made: one before each of the first
/// `max_retries` failures, and none after the last, when the call is
/// exhausted.
pub proof fn lemma_failures_exhaust_after_max(max_retries: usize)
    ensures
        forall|j: nat| j < max_retries ==> #[trigger] after_failures(max_retries, j) == RetryState::Attempting(j as usize),
        after_failures(max_retries, max_retries as nat) == RetryState::Exhausted,
{
    assert forall|j: nat| j < max_retries implies #[trigger] after_failures(max_retries, j) == RetryState::Attempting(
        j as usize,
    ) by {
        lemma_failures_count(max_retries, j);
    }
    if max_retries > 0 {
        lemma_failures_count(max_retries, (max_retries - 1) as nat);
    }
}

proof fn lemma_failures_count(max_retries: usize, j: nat)
    requires
        j < max_retries,
    ensures
        after_failures(max_retries, j) == RetryState::Attempting(j as usize),
    decreases j,
{
    if j > 0 {
        lemma_failures_count(max_retries, (j - 1) as nat);
    }
}

/// The decisions of an extraction call that may ask the model again: it is
/// told what each attempt brought back, grows the conversation with reasks,
/// and says when the call is over and with what result.
pub struct RetryCoordinator {
    mode: Mode,
    streaming: bool,
    max_retries: usize,
    state: RetryState,
}

impl RetryCoordinator {
    pub closed spec fn spec_mode(&self) -> Mode {
        self.mode
    }

    pub closed spec fn spec_streaming(&self) -> bool {
        self.streaming
    }

    pub closed spec fn spec_max_retries(&self) -> usize {
        self.max_retries
    }

    pub closed spec fn spec_state(&self) -> RetryState {
        self.state
    }

    /// An attempt number is always below the number of attempts allowed.
    pub closed spec fn wf(&self) -> bool {
        self.state matches RetryState::Attempting(n) ==> n < self.max_retries
    }

    /// A call in `mode` that allows `max_retries` attempts; `streaming` when
    /// the response comes as a stream of fragments.
    pub fn new(mode: Mode, streaming: bool, max_retries: usize) -> (r: RetryCoordinator)
        ensures
            r.wf(),
            r.spec_mode() == mode,
            r.spec_streaming() == streaming,
            r.spec_max_retries() == max_retries,
            r.spec_state() == initial_state(max_retries),
    {
        let state = if max_retries == 0 {
            RetryState::Exhausted
        } else {
            RetryState::Attempting(0)
        };
        RetryCoordinator { mode, streaming, max_retries, state }
    }

    /// Where the call stands.
    pub fn state(&self) -> (r: RetryState)
        ensures
            r == self.spec_state(),
    {
        self.state
    }

    /// Whether a request is to be sent now.
    pub fn should_send(&self) -> (r: bool)
        ensures
            r == self.spec_state() is Attempting,
    {
        match self.state {
            RetryState::Attempting(_) => true,
            _ => false,
        }
    }

    /// The error of a call that allowed no attempt at all.
    pub fn no_attempt_error(&self) -> (r: Error)
        ensures
            r@ == ErrorView::RetriesExhausted("no attempt was allowed"@),
    {
        Error::RetriesExhausted(String::from_str("no attempt was allowed"))
    }

    /// Takes what the current attempt brought back. Returns nothing when
    /// another request is to be sent, after appending the reask turns to
    /// `conversation`; returns the call's result when it is over, leaving
    /// `conversation` as it was.
    pub fn on_event<T, S>(&mut self, conversation: &mut Vec<Message>, event: Event<T, S>) -> (r: Option<
        Result<InstructorResponse<T, S>, Error>,
    >)
        requires
            old(self).wf(),
            old(self).spec_state() is Attempting,
        ensures
            final(self).wf(),
            final(self).spec_mode() == old(self).spec_mode(),
            final(self).spec_streaming() == old(self).spec_streaming(),
            final(self).spec_max_retries() == old(self).spec_max_retries(),
            final(self).spec_state() == next_state(
                old(self).spec_state(),
                old(self).spec_max_retries(),
                old(self).spec_streaming(),
                outcome_of(event),
            ),
            r is None <==> final(self).spec_state() is Attempting,
            match event {
                Event::TransportFailed(m) => r is Some && r->Some_0 is Err && r->Some_0->Err_0@
                    == ErrorView::APIError(m@),
                Event::Processed { answer, outcome } => match final(self).spec_state() {
                    RetryState::Attempting(_) => outcome is Err,
                    RetryState::Exhausted => r is Some && r->Some_0 is Err && outcome is Err
                        && r->Some_0->Err_0@ == ErrorView::RetriesExhausted(
                        error_text(outcome->Err_0),
                    ),
                    _ => r == Some(outcome),
                },
            },
            final(self).spec_state() is Attempting ==> (event matches Event::Processed {
                answer,
                outcome: Err(e),
            } && turns(final(conversation)@) == turns(old(conversation)@) + reask_turns(
                answer@,
                old(self).spec_mode(),
                e,
            )),
            !(final(self).spec_state() is Attempting) ==> final(conversation)@ == old(conversation)@,
            old(conversation)@.len() <= final(conversation)@.len(),
            final(conversation)@.subrange(0, old(conversation)@.len() as int) == old(conversation)@,
    {
        let n = match self.state {
            RetryState::Attempting(n) => n,
            _ => 0,
        };
        match event {
            Event::TransportFailed(m) => {
                self.state = RetryState::FailedFatal;
                Some(Err(Error::APIError(m)))
            },
            Event::Processed { answer, outcome } => match outcome {
                Ok(env) => {
                    self.state = RetryState::Succeeded;
                    Some(Ok(env))
                },
                Err(e) => {
                    if !e.retryable() || self.streaming {
                        self.state = RetryState::FailedFatal;
                        Some(Err(e))
                    } else if n + 1 < self.max_retries {
                        let ghost before = conversation@;
                        let mut more = reask_messages(answer, self.mode, &e);
                        let ghost added = more@;
                        conversation.append(&mut more);
                        assert(turns(conversation@) =~= turns(before) + turns(added));
                        assert(conversation@.subrange(0, before.len() as int) =~= before);
                        self.state = RetryState::Attempting(n + 1);
                        None
                    } else {
                        self.state = RetryState::Exhausted;
                        Some(Err(Error::RetriesExhausted(e.message())))
                    }
                },
            },
        }
    }
}

} // verus!
