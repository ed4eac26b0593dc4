//! The decode loop of one generation, as a state that is advanced by what the
//! runtime reports. The caller performs the action the state asks for and
//! hands back the outcome; every decision is taken here.
use vstd::prelude::*;
use vstd::string::StringExecFns;
use crate::gen_config_builder::LunnamaGenConfigBuilder;
use crate::model::batch::{BatchEntry, BatchView, TokenBatch, MAX_CAPACITY};
use crate::model::model_builder::{
    initialize_batch, required_capacity, spec_prompt_entries, spec_required_capacity,
    LunnamaGenerationError, LunnamaModelResult, ModelResultView, StopCause, SEQUENCE_ID,
};

verus! {

/// Where a generation stands, which is also what it waits for.
#[derive(Clone, Copy, Debug, PartialEq, Eq, Structural)]
pub enum Phase {
    /// Waiting for the prompt's tokens.
    Tokenizing,
    /// Waiting for the context.
    Allocating,
    /// Waiting for the decode of the prompt.
    Priming,
    /// Waiting for the next token.
    Sampling,
    /// Waiting for the text of a token.
    Rendering { token: i32 },
    /// Waiting for the decode of the last token.
    Decoding,
    /// Ended with a result.
    Stopped { cause: StopCause },
    /// Ended without one.
    Failed { error: LunnamaGenerationError },
}

/// What the caller is asked to do next.
#[derive(Clone, Copy, Debug, PartialEq, Eq, Structural)]
pub enum LunnamaAction {
    /// Turn the generation's prompt into tokens, with the
    /// beginning-of-sequence marker in front.
    Tokenize,
    /// Create the context of this generation, for `capacity` tokens.
    CreateContext { capacity: u32 },
    /// Submit the batch to the context.
    Decode,
    /// Choose a token from the logits at this index of the batch, tell the
    /// sampler that it was chosen, and see whether it ends the generation.
    Sample { logits_index: i32 },
    /// Render a token as text.
    Render { token: i32 },
    /// Take the result: the generation has stopped.
    Finish { cause: StopCause },
    /// Take the error: the generation has failed.
    Fail { error: LunnamaGenerationError },
}

/// What the runtime reports.
#[derive(Debug)]
pub enum LunnamaEvent {
    /// The prompt's tokens.
    Tokenized { tokens: Vec<i32> },
    /// The prompt cannot be turned into tokens.
    TokenizeFailed,
    /// A context was made; `window` is the number of positions it holds.
    ContextReady { window: u32 },
    /// No context could be made.
    ContextFailed,
    /// The batch was decoded.
    Decoded,
    /// The decode step failed.
    DecodeFailed,
    /// The sampler chose `token`; `is_end` tells whether it is the marker
    /// that ends a generation.
    Sampled { token: i32, is_end: bool },
    /// The text of the token.
    Rendered { text: String },
    /// The token cannot be rendered as text.
    RenderFailed,
}

/// The mathematical value of a [`LunnamaEvent`].
pub enum EventView {
    Tokenized { tokens: Seq<i32> },
    TokenizeFailed,
    ContextReady { window: u32 },
    ContextFailed,
    Decoded,
    DecodeFailed,
    Sampled { token: i32, is_end: bool },
    Rendered { text: Seq<char> },
    RenderFailed,
}

impl View for LunnamaEvent {
    type V = EventView;

    open spec fn view(&self) -> EventView {
        match self {
            LunnamaEvent::Tokenized { tokens } => EventView::Tokenized { tokens: tokens@ },
            LunnamaEvent::TokenizeFailed => EventView::TokenizeFailed,
            LunnamaEvent::ContextReady { window } => EventView::ContextReady { window: *window },
            LunnamaEvent::ContextFailed => EventView::ContextFailed,
            LunnamaEvent::Decoded => EventView::Decoded,
            LunnamaEvent::DecodeFailed => EventView::DecodeFailed,
            LunnamaEvent::Sampled { token, is_end } => EventView::Sampled {
                token: *token,
                is_end: *is_end,
            },
            LunnamaEvent::Rendered { text } => EventView::Rendered { text: text@ },
            LunnamaEvent::RenderFailed => EventView::RenderFailed,
        }
    }
}

/// The mathematical value of a [`LunnamaGeneration`].
pub struct GenerationView {
    /// Where the generation stands.
    pub phase: Phase,
    /// The text to continue.
    pub prompt: Seq<char>,
    /// The budget that the caller asked for.
    pub max_tokens: u32,
    /// The number of tokens of the prompt.
    pub prompt_len: nat,
    /// The capacity that the context is created with.
    pub capacity: nat,
    /// The number of positions that the context holds.
    pub window: nat,
    /// The position of the next token.
    pub cursor: nat,
    /// The batch to submit next.
    pub batch: BatchView,
    /// The text generated so far.
    pub content: Seq<char>,
}

impl GenerationView {
    /// The state before anything has happened.
    pub open spec fn initial(prompt: Seq<char>, max_tokens: u32) -> GenerationView {
        GenerationView {
            phase: Phase::Tokenizing,
            prompt,
            max_tokens,
            prompt_len: 0,
            capacity: 0,
            window: 0,
            cursor: 0,
            batch: BatchView { entries: Seq::empty(), capacity: 0 },
            content: Seq::empty(),
        }
    }

    /// Whether the generation has ended, with a result or without.
    pub open spec fn is_terminal(self) -> bool {
        self.phase is Stopped || self.phase is Failed
    }

    /// The number of tokens generated so far.
    pub open spec fn out_tokens(self) -> int {
        self.cursor - self.prompt_len
    }

    /// What every generation satisfies at every moment.
    pub open spec fn wf(self) -> bool {
        &&& self.batch.wf()
        &&& self.batch.capacity == self.capacity
        &&& self.prompt_len <= self.cursor <= self.capacity <= MAX_CAPACITY
        &&& self.phase is Tokenizing ==> self.capacity == 0
        &&& !(self.phase is Tokenizing || self.phase is Failed) ==> self.capacity
            == spec_required_capacity(self.prompt_len, self.max_tokens)
        &&& (self.phase is Allocating || self.phase is Priming) ==> self.cursor == self.prompt_len
            && self.batch.entries.len() == self.prompt_len
        &&& (self.phase is Sampling || self.phase is Rendering || self.phase is Decoding)
            ==> self.cursor < self.capacity && self.cursor < self.window
        &&& self.phase is Decoding ==> self.batch.entries.len() == 1
        &&& self.phase is Failed ==> self.content == Seq::<char>::empty()
        &&& self.phase matches Phase::Stopped { cause } ==> match cause {
            StopCause::BudgetExhausted => self.cursor == self.capacity,
            StopCause::ContextExhausted => self.cursor < self.capacity && self.cursor
                >= self.window,
            StopCause::EndOfGeneration => self.cursor < self.capacity && self.cursor
                < self.window,
        }
    }

    /// The action that the generation waits for.
    pub open spec fn pending_action(self) -> LunnamaAction {
        match self.phase {
            Phase::Tokenizing => LunnamaAction::Tokenize,
            Phase::Allocating => LunnamaAction::CreateContext { capacity: self.capacity as u32 },
            Phase::Priming => LunnamaAction::Decode,
            Phase::Sampling => LunnamaAction::Sample {
                logits_index: (self.batch.entries.len() - 1) as i32,
            },
            Phase::Rendering { token } => LunnamaAction::Render { token },
            Phase::Decoding => LunnamaAction::Decode,
            Phase::Stopped { cause } => LunnamaAction::Finish { cause },
            Phase::Failed { error } => LunnamaAction::Fail { error },
        }
    }

    /// Whether `event` answers the action that the generation waits for.
    pub open spec fn expects(self, event: EventView) -> bool {
        match self.phase {
            Phase::Tokenizing => event is Tokenized || event is TokenizeFailed,
            Phase::Allocating => event is ContextReady || event is ContextFailed,
            Phase::Priming => event is Decoded || event is DecodeFailed,
            Phase::Sampling => event is Sampled,
            Phase::Rendering { .. } => event is Rendered || event is RenderFailed,
            Phase::Decoding => event is Decoded || event is DecodeFailed,
            Phase::Stopped { .. } => false,
            Phase::Failed { .. } => false,
        }
    }

    /// The generation after a failure: what was generated is dropped.
    pub open spec fn failed(self, error: LunnamaGenerationError) -> GenerationView {
        GenerationView { phase: Phase::Failed { error }, content: Seq::empty(), ..self }
    }

    /// The head of the loop, entered with the cursor on the next position:
    /// stop when the budget is spent, stop when the window is full, else
    /// sample.
    pub open spec fn at_loop_head(self) -> GenerationView {
        if self.cursor >= self.capacity {
            GenerationView { phase: Phase::Stopped { cause: StopCause::BudgetExhausted }, ..self }
        } else if self.cursor + 1 > self.window {
            GenerationView { phase: Phase::Stopped { cause: StopCause::ContextExhausted }, ..self }
        } else {
            GenerationView { phase: Phase::Sampling, ..self }
        }
    }

    /// The generation after the prompt's tokens have arrived.
    pub open spec fn tokenized(self, tokens: Seq<i32>) -> GenerationView {
        let capacity = spec_required_capacity(tokens.len(), self.max_tokens);
        if capacity > MAX_CAPACITY {
            self.failed(LunnamaGenerationError::Capacity)
        } else {
            GenerationView {
                phase: Phase::Allocating,
                prompt_len: tokens.len(),
                capacity,
                cursor: tokens.len(),
                batch: BatchView { entries: spec_prompt_entries(tokens), capacity },
                ..self
            }
        }
    }

    /// The generation after the text of `token` has arrived: the text is
    /// appended, and the batch holds that token alone, at the cursor, with
    /// logits.
    pub open spec fn rendered(self, token: i32, text: Seq<char>) -> GenerationView {
        GenerationView {
            phase: Phase::Decoding,
            content: self.content + text,
            batch: BatchView {
                entries: seq![
                    BatchEntry {
                        token,
                        position: self.cursor as i32,
                        sequence: SEQUENCE_ID,
                        emit_logits: true,
                    },
                ],
                capacity: self.batch.capacity,
            },
            ..self
        }
    }

    /// The generation after `event`. An event that does not answer the
    /// pending action changes nothing.
    pub open spec fn step(self, event: EventView) -> GenerationView {
        match (self.phase, event) {
            (Phase::Tokenizing, EventView::Tokenized { tokens }) => self.tokenized(tokens),
            (Phase::Tokenizing, EventView::TokenizeFailed) => self.failed(
                LunnamaGenerationError::Tokenization,
            ),
            (Phase::Allocating, EventView::ContextReady { window }) => GenerationView {
                phase: Phase::Priming,
                window: window as nat,
                ..self
            },
            (Phase::Allocating, EventView::ContextFailed) => self.failed(
                LunnamaGenerationError::Capacity,
            ),
            (Phase::Priming, EventView::Decoded) => self.at_loop_head(),
            (Phase::Priming, EventView::DecodeFailed) => self.failed(LunnamaGenerationError::Decode),
            (Phase::Sampling, EventView::Sampled { token, is_end }) => if is_end {
                GenerationView { phase: Phase::Stopped { cause: StopCause::EndOfGeneration }, ..self }
            } else {
                GenerationView { phase: Phase::Rendering { token }, ..self }
            },
            (Phase::Rendering { token }, EventView::Rendered { text }) => self.rendered(token, text),
            (Phase::Rendering { .. }, EventView::RenderFailed) => self.failed(
                LunnamaGenerationError::Detokenization,
            ),
            (Phase::Decoding, EventView::Decoded) => (GenerationView {
                cursor: self.cursor + 1,
                ..self
            }).at_loop_head(),
            (Phase::Decoding, EventView::DecodeFailed) => self.failed(
                LunnamaGenerationError::Decode,
            ),
            _ => self,
        }
    }

    /// What the generation hands back once it has ended.
    pub open spec fn outcome(self) -> Option<Result<ModelResultView, LunnamaGenerationError>> {
        match self.phase {
            Phase::Stopped { cause } => Some(
                Ok(
                    ModelResultView {
                        content: self.content,
                        input_tokens: self.prompt_len as u32,
                        out_tokens: self.out_tokens() as u32,
                        stop_cause: cause,
                    },
                ),
            ),
            Phase::Failed { error } => Some(Err(error)),
            _ => None,
        }
    }
}

/// One generation: the prompt's length, the context's size, the cursor, the
/// batch to submit next and the text so far.
#[derive(Debug)]
pub struct LunnamaGeneration {
    phase: Phase,
    prompt: String,
    max_tokens: u32,
    prompt_len: u32,
    capacity: u32,
    window: u32,
    cursor: u32,
    batch: TokenBatch,
    output: String,
}

impl View for LunnamaGeneration {
    type V = GenerationView;

    closed spec fn view(&self) -> GenerationView {
        GenerationView {
            phase: self.phase,
            prompt: self.prompt@,
            max_tokens: self.max_tokens,
            prompt_len: self.prompt_len as nat,
            capacity: self.capacity as nat,
            window: self.window as nat,
            cursor: self.cursor as nat,
            batch: self.batch@,
            content: self.output@,
        }
    }
}

impl LunnamaGeneration {
    /// What every generation made by [`LunnamaGeneration::begin`] satisfies,
    /// and every step keeps.
    pub open spec fn wf(&self) -> bool {
        self@.wf()
    }

    /// Starts a generation that continues `prompt`, with the budget of
    /// `config`. Nothing has been asked of the runtime yet; the first action
    /// is to tokenize the prompt.
    pub fn begin(prompt: &str, config: &LunnamaGenConfigBuilder) -> (generation: LunnamaGeneration)
        ensures
            generation.wf(),
            generation@ == GenerationView::initial(prompt@, config@.max_tokens),
    {
        LunnamaGeneration {
            phase: Phase::Tokenizing,
            prompt: String::from_str(prompt),
            max_tokens: config.current_max_tokens(),
            prompt_len: 0,
            capacity: 0,
            window: 0,
            cursor: 0,
            batch: TokenBatch::new(0),
            output: String::new(),
        }
    }

    /// The action that the generation waits for.
    pub fn pending_action(&self) -> (action: LunnamaAction)
        requires
            self.wf(),
        ensures
            action == self@.pending_action(),
    {
        match self.phase {
            Phase::Tokenizing => LunnamaAction::Tokenize,
            Phase::Allocating => LunnamaAction::CreateContext { capacity: self.capacity },
            Phase::Priming => LunnamaAction::Decode,
            Phase::Sampling => LunnamaAction::Sample { logits_index: self.batch.n_tokens() - 1 },
            Phase::Rendering { token } => LunnamaAction::Render { token },
            Phase::Decoding => LunnamaAction::Decode,
            Phase::Stopped { cause } => LunnamaAction::Finish { cause },
            Phase::Failed { error } => LunnamaAction::Fail { error },
        }
    }

    /// Drops what was generated and ends the generation with `error`.
    fn fail(&mut self, error: LunnamaGenerationError)
        requires
            old(self).wf(),
        ensures
            final(self).wf(),
            final(self)@ == old(self)@.failed(error),
    {
        self.phase = Phase::Failed { error };
        self.output = String::new();
    }

    /// Decides at the head of the loop whether to stop or to sample.
    fn enter_loop(&mut self)
        requires
            old(self)@.batch.wf(),
            old(self)@.batch.capacity == old(self)@.capacity,
            old(self)@.prompt_len <= old(self)@.cursor <= old(self)@.capacity <= MAX_CAPACITY,
            old(self)@.capacity == spec_required_capacity(
                old(self)@.prompt_len,
                old(self)@.max_tokens,
            ),
        ensures
            final(self).wf(),
            final(self)@ == old(self)@.at_loop_head(),
    {
        if self.cursor >= self.capacity {
            self.phase = Phase::Stopped { cause: StopCause::BudgetExhausted };
        } else if self.cursor + 1 > self.window {
            self.phase = Phase::Stopped { cause: StopCause::ContextExhausted };
        } else {
            self.phase = Phase::Sampling;
        }
    }

    /// Takes in the prompt's tokens: sizes the context and lays out the
    /// first batch.
    fn accept_prompt(&mut self, tokens: &Vec<i32>)
        requires
            old(self).wf(),
            old(self)@.phase is Tokenizing,
        ensures
            final(self).wf(),
            final(self)@ == old(self)@.tokenized(tokens@),
    {
        match required_capacity(tokens.len(), self.max_tokens) {
            Err(error) => {
                self.fail(error);
            },
            Ok(capacity) => {
                match initialize_batch(tokens, capacity) {
                    Err(_) => {
                        self.fail(LunnamaGenerationError::Capacity);
                    },
                    Ok(batch) => {
                        self.phase = Phase::Allocating;
                        self.prompt_len = tokens.len() as u32;
                        self.capacity = capacity;
                        self.cursor = tokens.len() as u32;
                        self.batch = batch;
                    },
                }
            },
        }
    }

    /// Takes in the text of `token`: appends it and rebuilds the batch with
    /// that token alone.
    fn accept_text(&mut self, token: i32, text: &String)
        requires
            old(self).wf(),
            old(self)@.phase is Rendering,
        ensures
            final(self).wf(),
            final(self)@ == old(self)@.rendered(token, text@),
    {
        self.output.append(text.as_str());
        self.batch.clear();
        let position: i32 = self.cursor as i32;
        let added = self.batch.add(token, position, SEQUENCE_ID, true);
        assert(added.is_ok());
        assert(self.batch@.entries =~= seq![
            BatchEntry { token, position, sequence: SEQUENCE_ID, emit_logits: true },
        ]);
        self.phase = Phase::Decoding;
    }

    /// Advances the generation by what the runtime reports, and returns the
    /// action to perform next. An event that does not answer the pending
    /// action changes nothing, and the same action is asked for again.
    pub fn step(&mut self, event: &LunnamaEvent) -> (action: LunnamaAction)
        requires
            old(self).wf(),
        ensures
            final(self).wf(),
            final(self)@ == old(self)@.step(event@),
            action == final(self)@.pending_action(),
    {
        match event {
            LunnamaEvent::Tokenized { tokens } => {
                if self.phase == Phase::Tokenizing {
                    self.accept_prompt(tokens);
                }
            },
            LunnamaEvent::TokenizeFailed => {
                if self.phase == Phase::Tokenizing {
                    self.fail(LunnamaGenerationError::Tokenization);
                }
            },
            LunnamaEvent::ContextReady { window } => {
                if self.phase == Phase::Allocating {
                    self.window = *window;
                    self.phase = Phase::Priming;
                }
            },
            LunnamaEvent::ContextFailed => {
                if self.phase == Phase::Allocating {
                    self.fail(LunnamaGenerationError::Capacity);
                }
            },
            LunnamaEvent::Decoded => {
                if self.phase == Phase::Priming {
                    self.enter_loop();
                } else if self.phase == Phase::Decoding {
                    self.cursor = self.cursor + 1;
                    self.enter_loop();
                }
            },
            LunnamaEvent::DecodeFailed => {
                if self.phase == Phase::Priming || self.phase == Phase::Decoding {
                    self.fail(LunnamaGenerationError::Decode);
                }
            },
            LunnamaEvent::Sampled { token, is_end } => {
                if self.phase == Phase::Sampling {
                    if *is_end {
                        self.phase = Phase::Stopped { cause: StopCause::EndOfGeneration };
                    } else {
                        self.phase = Phase::Rendering { token: *token };
                    }
                }
            },
            LunnamaEvent::Rendered { text } => {
                match self.phase {
                    Phase::Rendering { token } => {
                        self.accept_text(token, text);
                    },
                    _ => {},
                }
            },
            LunnamaEvent::RenderFailed => {
                match self.phase {
                    Phase::Rendering { .. } => {
                        self.fail(LunnamaGenerationError::Detokenization);
                    },
                    _ => {},
                }
            },
        }
        self.pending_action()
    }

    /// The text to continue.
    pub fn prompt(&self) -> (prompt: &str)
        ensures
            prompt@ == self@.prompt,
    {
        self.prompt.as_str()
    }

    /// Where the generation stands.
    pub fn phase(&self) -> (phase: Phase)
        ensures
            phase == self@.phase,
    {
        self.phase
    }

    /// The batch to submit at the next decode.
    pub fn batch(&self) -> (batch: &TokenBatch)
        ensures
            batch@ == self@.batch,
    {
        &self.batch
    }

    /// The position of the next token.
    pub fn cursor(&self) -> (cursor: u32)
        ensures
            cursor == self@.cursor,
    {
        self.cursor
    }

    /// Ends the generation and hands back its result or its error; nothing
    /// while the generation is still running.
    pub fn outcome(self) -> (outcome: Option<Result<LunnamaModelResult, LunnamaGenerationError>>)
        requires
            self.wf(),
        ensures
            match self@.outcome() {
                Some(Ok(result)) => outcome.is_some() && outcome.unwrap().is_ok()
                    && outcome.unwrap().unwrap()@ == result,
                Some(Err(error)) => outcome == Some(
                    Err::<LunnamaModelResult, LunnamaGenerationError>(error),
                ),
                None => outcome.is_none(),
            },
    {
        match self.phase {
            Phase::Stopped { cause } => Some(
                Ok(
                    LunnamaModelResult {
                        content: self.output,
                        input_tokens: self.prompt_len,
                        out_tokens: self.cursor - self.prompt_len,
                        stop_cause: cause,
                    },
                ),
            ),
            Phase::Failed { error } => Some(Err(error)),
            _ => None,
        }
    }
}

} // verus!
