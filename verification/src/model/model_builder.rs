//! What a generation returns, how it can fail, how large its context is and
//! how its first batch is laid out.
use vstd::prelude::*;
use vstd::string::StringExecFns;
use crate::model::batch::{BatchEntry, BatchError, BatchView, TokenBatch, MAX_CAPACITY};

verus! {

/// What can be wrong with a model before any generation starts.
#[derive(Clone, Copy, Debug, PartialEq, Eq, Structural)]
pub enum LunnamaModelError {
    PromptNotProvide,
    BackendNotInit,
    InnerNotInit,
}

impl LunnamaModelError {
    /// The text that describes this error.
    pub open spec fn spec_message(self) -> Seq<char> {
        match self {
            LunnamaModelError::PromptNotProvide => "Prompt not provide"@,
            LunnamaModelError::BackendNotInit => "backend not initialized"@,
            LunnamaModelError::InnerNotInit => "Inner not initialized"@,
        }
    }

    /// Renders the error as text.
    pub fn message(&self) -> (text: String)
        ensures
            text@ == self.spec_message(),
    {
        match self {
            LunnamaModelError::PromptNotProvide => String::from_str("Prompt not provide"),
            LunnamaModelError::BackendNotInit => String::from_str("backend not initialized"),
            LunnamaModelError::InnerNotInit => String::from_str("Inner not initialized"),
        }
    }
}

/// Why a generation failed. No text is returned with any of these.
#[derive(Clone, Copy, Debug, PartialEq, Eq, Structural)]
pub enum LunnamaGenerationError {
    /// The prompt could not be turned into tokens.
    Tokenization,
    /// No context can be made for the prompt and the budget together.
    Capacity,
    /// A decode step failed.
    Decode,
    /// A sampled token could not be rendered as text.
    Detokenization,
}

/// Why a generation stopped. Each of these is a success.
#[derive(Clone, Copy, Debug, PartialEq, Eq, Structural)]
pub enum StopCause {
    /// The next token would not fit in the context's window.
    ContextExhausted,
    /// The model chose the token that ends a generation.
    EndOfGeneration,
    /// As many tokens were generated as the budget allows.
    BudgetExhausted,
}

/// The text that a generation produced, and its token counts.
#[derive(Debug, Clone)]
pub struct LunnamaModelResult {
    pub content: String,
    pub input_tokens: u32,
    pub out_tokens: u32,
    pub stop_cause: StopCause,
}

/// The mathematical value of a [`LunnamaModelResult`].
pub struct ModelResultView {
    pub content: Seq<char>,
    pub input_tokens: u32,
    pub out_tokens: u32,
    pub stop_cause: StopCause,
}

impl View for LunnamaModelResult {
    type V = ModelResultView;

    open spec fn view(&self) -> ModelResultView {
        ModelResultView {
            content: self.content@,
            input_tokens: self.input_tokens,
            out_tokens: self.out_tokens,
            stop_cause: self.stop_cause,
        }
    }
}

/// The smallest budget a generation runs with. A smaller request is raised to
/// it, so that there is always room for a useful reply.
pub const MIN_GENERATION_BUDGET: u32 = 1000;

/// The sequence that every token of a generation belongs to.
pub const SEQUENCE_ID: i32 = 0;

/// The budget that a generation runs with when `max_tokens` were asked for.
pub open spec fn spec_effective_budget(max_tokens: u32) -> u32 {
    if max_tokens >= MIN_GENERATION_BUDGET {
        max_tokens
    } else {
        MIN_GENERATION_BUDGET
    }
}

/// The capacity that the context of a generation needs: the prompt and the
/// effective budget together.
pub open spec fn spec_required_capacity(prompt_len: nat, max_tokens: u32) -> nat {
    prompt_len + spec_effective_budget(max_tokens) as nat
}

/// The batch entries that prime a context with a prompt: each token at the
/// position of its index, and logits at the last token only.
pub open spec fn spec_prompt_entries(tokens: Seq<i32>) -> Seq<BatchEntry> {
    Seq::new(
        tokens.len(),
        |i: int|
            BatchEntry {
                token: tokens[i],
                position: i as i32,
                sequence: SEQUENCE_ID,
                emit_logits: i == tokens.len() - 1,
            },
    )
}

/// The budget that a generation runs with when `max_tokens` were asked for:
/// never less than [`MIN_GENERATION_BUDGET`].
pub fn effective_budget(max_tokens: u32) -> (budget: u32)
    ensures
        budget == spec_effective_budget(max_tokens),
        budget >= MIN_GENERATION_BUDGET,
        budget >= max_tokens,
{
    if max_tokens >= MIN_GENERATION_BUDGET {
        max_tokens
    } else {
        MIN_GENERATION_BUDGET
    }
}

/// The capacity to create the context with, for a prompt of `prompt_len`
/// tokens and a request for `max_tokens`. It is never zero. Fails when the
/// sum is more than a context can be made with.
pub fn required_capacity(prompt_len: usize, max_tokens: u32) -> (capacity: Result<
    u32,
    LunnamaGenerationError,
>)
    ensures
        spec_required_capacity(prompt_len as nat, max_tokens) <= MAX_CAPACITY ==> capacity
            == Ok::<u32, LunnamaGenerationError>(
            spec_required_capacity(prompt_len as nat, max_tokens) as u32,
        ),
        spec_required_capacity(prompt_len as nat, max_tokens) > MAX_CAPACITY ==> capacity
            == Err::<u32, LunnamaGenerationError>(LunnamaGenerationError::Capacity),
        capacity matches Ok(total) ==> total >= MIN_GENERATION_BUDGET && total >= prompt_len,
{
    let budget: u32 = effective_budget(max_tokens);
    if budget > MAX_CAPACITY {
        return Err(LunnamaGenerationError::Capacity);
    }
    let room: u32 = MAX_CAPACITY - budget;
    if prompt_len > room as usize {
        return Err(LunnamaGenerationError::Capacity);
    }
    Ok(prompt_len as u32 + budget)
}

/// Makes a batch for `total_required_tokens` tokens and fills it with the
/// prompt. Fails when the prompt is longer than that.
pub fn initialize_batch(tokenized_prompt: &Vec<i32>, total_required_tokens: u32) -> (batch: Result<
    TokenBatch,
    BatchError,
>)
    requires
        total_required_tokens <= MAX_CAPACITY,
    ensures
        tokenized_prompt@.len() <= total_required_tokens ==> batch.is_ok() && batch.unwrap().wf()
            && batch.unwrap()@ == (BatchView {
            entries: spec_prompt_entries(tokenized_prompt@),
            capacity: total_required_tokens as nat,
        }),
        tokenized_prompt@.len() > total_required_tokens ==> batch == Err::<TokenBatch, BatchError>(
            BatchError::InsufficientSpace { capacity: total_required_tokens as usize },
        ),
{
    let mut batch = TokenBatch::new(total_required_tokens as usize);
    let count: usize = tokenized_prompt.len();
    let mut i: usize = 0;
    while i < count
        invariant
            count == tokenized_prompt@.len(),
            i <= count,
            i <= total_required_tokens <= MAX_CAPACITY,
            batch.wf(),
            batch@.capacity == total_required_tokens,
            batch@.entries == spec_prompt_entries(tokenized_prompt@).subrange(0, i as int),
        decreases count - i,
    {
        let is_last: bool = i == count - 1;
        match batch.add(tokenized_prompt[i], i as i32, SEQUENCE_ID, is_last) {
            Err(e) => {
                return Err(e);
            },
            Ok(()) => {},
        }
        proof {
            let all = spec_prompt_entries(tokenized_prompt@);
            assert(all.subrange(0, i as int).push(all[i as int]) =~= all.subrange(0, i + 1));
        }
        i = i + 1;
    }
    proof {
        let all = spec_prompt_entries(tokenized_prompt@);
        assert(all.subrange(0, i as int) =~= all);
    }
    Ok(batch)
}

} // verus!
