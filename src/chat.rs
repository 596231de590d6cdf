use vstd::prelude::*;
use crate::prompt::{ClientConfig, ModelProvider, Prompt};

verus! {

/// Sampling temperature of the raw path, in hundredths (0.20).
pub const RAW_TEMPERATURE_HUNDREDTHS: u32 = 20;

/// Who speaks a message.
#[derive(Clone, Copy, Debug, PartialEq, Eq, Structural)]
pub enum Role {
    System,
    User,
}

/// One role-tagged message of a chat request.
#[derive(Debug)]
pub struct ChatMessage {
    pub role: Role,
    pub content: String,
}

impl View for ChatMessage {
    type V = (Role, Seq<char>);

    open spec fn view(&self) -> (Role, Seq<char>) {
        (self.role, self.content@)
    }
}

impl Clone for ChatMessage {
    fn clone(&self) -> (r: ChatMessage)
        ensures
            r == *self,
    {
        ChatMessage { role: self.role, content: self.content.clone() }
    }
}

/// Which of the two completion paths an attempt belongs to.
#[derive(Clone, Copy, Debug, PartialEq, Eq, Structural)]
pub enum CompletionMode {
    /// The answer is normalised and decoded into a caller's shape.
    Structured,
    /// The answer is returned as text, verbatim.
    Raw,
}

/// An outbound chat-completion request, ready for a transport to send.
#[derive(Clone, Debug)]
pub struct ChatRequest {
    pub model: String,
    pub messages: Vec<ChatMessage>,
    /// Always `false`: a session waits for the whole answer.
    pub stream: bool,
    /// Asks the backend for a syntactically valid JSON object.
    pub json_object: bool,
    /// Sampling temperature in hundredths; `None` keeps the backend's default.
    pub temperature_hundredths: Option<u32>,
}

/// What a [`ChatRequest`] carries, as mathematical values.
pub struct RequestView {
    pub model: Seq<char>,
    pub messages: Seq<(Role, Seq<char>)>,
    pub stream: bool,
    pub json_object: bool,
    pub temperature_hundredths: Option<u32>,
}

impl View for ChatRequest {
    type V = RequestView;

    open spec fn view(&self) -> RequestView {
        RequestView {
            model: self.model@,
            messages: self.messages@.map_values(|m: ChatMessage| m@),
            stream: self.stream,
            json_object: self.json_object,
            temperature_hundredths: self.temperature_hundredths,
        }
    }
}

/// Why a session could not start or gave up.
#[derive(Debug)]
pub enum SessionError {
    /// The backend's credential is absent; retrying cannot supply it.
    Configuration { variable: String },
    /// Every attempt failed; carries how many were made and the last failure.
    Exhausted { attempts: u32, last_error: AttemptError },
}

/// Why one attempt failed. Every variant is retried.
#[derive(Debug)]
pub enum AttemptError {
    /// Building or sending the request failed, or the backend refused it.
    Request { message: String },
    /// The response held no choice.
    MissingChoice,
    /// The first choice held no text.
    MissingContent,
    /// The normalised text did not decode into the wanted shape.
    Decode { error: String, text: String },
}

/// The state of one session, as mathematical values.
pub struct SessionView {
    pub messages: Seq<(Role, Seq<char>)>,
    pub model: Seq<char>,
    pub provider: ModelProvider,
    pub api_key: Seq<char>,
    pub api_base: Option<Seq<char>>,
}

impl SessionView {
    /// Two messages, the system message first and the user message second.
    pub open spec fn wf(self) -> bool {
        &&& self.messages.len() == 2
        &&& self.messages[0].0 == Role::System
        &&& self.messages[1].0 == Role::User
    }

    /// The text of the system message.
    pub open spec fn system(self) -> Seq<char> {
        self.messages[0].1
    }

    /// The same session with the system message's text replaced.
    pub open spec fn with_system(self, text: Seq<char>) -> SessionView {
        SessionView {
            messages: self.messages.update(0, (Role::System, text)),
            model: self.model,
            provider: self.provider,
            api_key: self.api_key,
            api_base: self.api_base,
        }
    }
}

/// The two messages a session starts from.
pub open spec fn initial_messages(system: Seq<char>, user: Seq<char>) -> Seq<(Role, Seq<char>)> {
    seq![(Role::System, system), (Role::User, user)]
}

/// The request a session in state `s` sends on the given path.
pub open spec fn request_for(s: SessionView, mode: CompletionMode) -> RequestView {
    RequestView {
        model: s.model,
        messages: s.messages,
        stream: false,
        json_object: s.provider.spec_supports_json_mode(),
        temperature_hundredths: match mode {
            CompletionMode::Structured => None,
            CompletionMode::Raw => Some(RAW_TEMPERATURE_HUNDREDTHS),
        },
    }
}

/// A per-request chat session: it owns its message buffer and its resolved
/// backend, and rewrites nothing but the system message.
#[derive(Debug)]
pub struct ChatAsync {
    messages: Vec<ChatMessage>,
    model: String,
    config: ClientConfig,
    provider: ModelProvider,
}

impl View for ChatAsync {
    type V = SessionView;

    closed spec fn view(&self) -> SessionView {
        SessionView {
            messages: self.messages@.map_values(|m: ChatMessage| m@),
            model: self.model@,
            provider: self.provider,
            api_key: self.config.api_key@,
            api_base: match self.config.api_base {
                Some(b) => Some(b@),
                None => None,
            },
        }
    }
}

impl ChatAsync {
    /// Starts a session from a prompt and the credential found for its
    /// backend; fails at once when there is none.
    pub fn new(prompt: Prompt, api_key: Option<String>) -> (r: Result<ChatAsync, SessionError>)
        ensures
            match r {
                Ok(s) => {
                    &&& api_key is Some
                    &&& s@.wf()
                    &&& s@.messages == initial_messages(prompt.system_prompt@, prompt.user_prompt@)
                    &&& s@.model == prompt.model@
                    &&& s@.provider == prompt.provider
                    &&& s@.api_key == api_key->Some_0@
                    &&& s@.api_base == prompt.provider.spec_api_base()
                },
                Err(e) => {
                    &&& api_key is None
                    &&& e matches SessionError::Configuration { variable }
                    &&& variable@ == prompt.provider.spec_credential_var()
                },
            },
    {
        let provider = prompt.provider;
        match api_key {
            None => Err(
                SessionError::Configuration { variable: String::from_str(provider.credential_var()) },
            ),
            Some(key) => {
                let mut messages: Vec<ChatMessage> = Vec::new();
                messages.push(ChatMessage { role: Role::System, content: prompt.system_prompt });
                messages.push(ChatMessage { role: Role::User, content: prompt.user_prompt });
                let config = ClientConfig { api_key: key, api_base: provider.api_base() };
                let s = ChatAsync { messages, model: prompt.model, config, provider };
                assert(s@.messages =~= initial_messages(prompt.system_prompt@, prompt.user_prompt@));
                Ok(s)
            },
        }
    }

    /// The messages the next attempt sends.
    pub fn messages(&self) -> (r: &Vec<ChatMessage>)
        ensures
            r@.map_values(|m: ChatMessage| m@) == self@.messages,
    {
        &self.messages
    }

    pub fn provider(&self) -> (r: ModelProvider)
        ensures
            r == self@.provider,
    {
        self.provider
    }

    pub fn config(&self) -> (r: &ClientConfig)
        ensures
            r.api_key@ == self@.api_key,
            r.api_base is None <==> self@.api_base is None,
            r.api_base is Some ==> r.api_base->Some_0@ == self@.api_base->Some_0,
    {
        &self.config
    }

    /// Builds the request of the next attempt on the given path: the current
    /// messages and model, streaming off, the JSON-object flag exactly when the
    /// backend has a JSON mode, and the low temperature on the raw path only.
    pub fn build_request(&self, mode: CompletionMode) -> (r: ChatRequest)
        ensures
            r@ == request_for(self@, mode),
    {
        let temperature_hundredths = match mode {
            CompletionMode::Structured => None,
            CompletionMode::Raw => Some(RAW_TEMPERATURE_HUNDREDTHS),
        };
        let r = ChatRequest {
            model: self.model.clone(),
            messages: self.messages.clone(),
            stream: false,
            json_object: self.provider.supports_json_mode(),
            temperature_hundredths,
        };
        assert(r@.messages =~= self@.messages);
        r
    }
}


/// How many attempts a session makes before it gives up.
pub const MAX_ATTEMPTS: u32 = 5;

/// Put before the instructions after a structured attempt failed.
pub const JSON_REPAIR_PREAMBLE: &'static str = "You are being invoked again because a previous attempt failed: its answer could not be read as the JSON described below. Follow the JSON format described there precisely, and answer with that JSON alone.\n\nYour instructions follow:\n\n";

/// Put before the instructions after a raw attempt failed.
pub const RAW_REPAIR_PREAMBLE: &'static str = "You are being invoked again because a previous attempt failed. Review the instructions below carefully, follow their format precisely, and respond accurately.\n\nYour instructions follow:\n\n";

/// The text put before the instructions on the given path.
pub open spec fn repair_preamble(mode: CompletionMode) -> Seq<char> {
    match mode {
        CompletionMode::Structured => JSON_REPAIR_PREAMBLE@,
        CompletionMode::Raw => RAW_REPAIR_PREAMBLE@,
    }
}

/// The system message that replaces `instructions` after the first failure: it
/// says that this is a retry, asks for the format to be followed, and carries
/// the instructions it replaces.
pub open spec fn repaired_system(mode: CompletionMode, instructions: Seq<char>) -> Seq<char> {
    repair_preamble(mode) + instructions
}

/// Where the retry loop stands: the index of the next attempt, and whether
/// the system message has been rewritten.
#[derive(Clone, Copy, Debug, PartialEq, Eq, Structural)]
pub struct RetryState {
    pub attempt: u32,
    pub repaired: bool,
}

impl RetryState {
    /// An attempt is still owed, and the rewrite has happened exactly when an
    /// attempt has failed.
    pub open spec fn wf(self) -> bool {
        &&& self.attempt < MAX_ATTEMPTS
        &&& self.repaired == (self.attempt > 0)
    }

    /// The state before the first attempt.
    pub fn start() -> (r: RetryState)
        ensures
            r == (RetryState { attempt: 0, repaired: false }),
            r.wf(),
    {
        RetryState { attempt: 0, repaired: false }
    }
}

/// What the loop does once an attempt's outcome is known.
#[derive(Debug)]
pub enum Next<T> {
    /// The attempt succeeded: stop with its value.
    Done(T),
    /// The attempt failed and another is owed, from this state.
    Retry(RetryState),
    /// The attempt failed and was the last: stop with this error.
    Exhausted(SessionError),
}

/// The session after an attempt failed in `state`: the system message is
/// rewritten after the first failure and left alone after any other.
pub open spec fn session_after_failure(
    s: SessionView,
    state: RetryState,
    mode: CompletionMode,
) -> SessionView {
    if state.attempt == 0 {
        s.with_system(repaired_system(mode, s.system()))
    } else {
        s
    }
}

/// The session after an attempt with the given outcome.
pub open spec fn session_after<T>(
    s: SessionView,
    state: RetryState,
    mode: CompletionMode,
    outcome: Result<T, AttemptError>,
) -> SessionView {
    match outcome {
        Ok(_) => s,
        Err(_) => session_after_failure(s, state, mode),
    }
}

/// The step the loop takes after an attempt in `state` with the given outcome.
pub open spec fn next_step<T>(state: RetryState, outcome: Result<T, AttemptError>) -> Next<T> {
    match outcome {
        Ok(v) => Next::Done(v),
        Err(e) => if state.attempt + 1 < MAX_ATTEMPTS {
            Next::Retry(RetryState { attempt: (state.attempt + 1) as u32, repaired: true })
        } else {
            Next::Exhausted(SessionError::Exhausted { attempts: (state.attempt + 1) as u32, last_error: e })
        },
    }
}

impl ChatAsync {
    fn repair_system_message(&mut self, mode: CompletionMode)
        requires
            old(self)@.wf(),
        ensures
            final(self)@ == old(self)@.with_system(repaired_system(mode, old(self)@.system())),
    {
        let ghost before = self@;
        let preamble = match mode {
            CompletionMode::Structured => JSON_REPAIR_PREAMBLE,
            CompletionMode::Raw => RAW_REPAIR_PREAMBLE,
        };
        let text = String::from_str(preamble).concat(self.messages[0].content.as_str());
        let ghost text_view = text@;
        self.messages.set(0, ChatMessage { role: Role::System, content: text });
        assert(self@.messages =~= before.messages.update(0, (Role::System, text_view)));
    }

    /// Records the outcome of the attempt made in `state` and says what comes
    /// next. A success ends the loop with its value. A failure rewrites the
    /// system message if it was the first, then asks for another attempt, or
    /// ends the loop with `Exhausted` once `MAX_ATTEMPTS` attempts have failed.
    pub fn advance<T>(
        &mut self,
        state: RetryState,
        mode: CompletionMode,
        outcome: Result<T, AttemptError>,
    ) -> (r: Next<T>)
        requires
            old(self)@.wf(),
            state.wf(),
        ensures
            final(self)@.wf(),
            final(self)@ == session_after(old(self)@, state, mode, outcome),
            r == next_step(state, outcome),
    {
        match outcome {
            Ok(v) => Next::Done(v),
            Err(e) => {
                if state.attempt == 0 {
                    self.repair_system_message(mode);
                }
                let attempt = state.attempt + 1;
                if attempt < MAX_ATTEMPTS {
                    Next::Retry(RetryState { attempt, repaired: true })
                } else {
                    Next::Exhausted(SessionError::Exhausted { attempts: attempt, last_error: e })
                }
            },
        }
    }
}

} // verus!
