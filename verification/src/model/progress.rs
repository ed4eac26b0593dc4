//! What holds of every step of a generation: the invariant is kept, a
//! generation that has ended stays as it is, and every answer brings the end
//! nearer.
use vstd::prelude::*;
use crate::model::generation::{EventView, GenerationView, Phase};
use crate::model::model_builder::{spec_effective_budget, MIN_GENERATION_BUDGET};

verus! {

/// An upper bound on the number of answers that a generation can still take
/// in before it has ended.
pub open spec fn steps_left(s: GenerationView) -> int {
    match s.phase {
        Phase::Tokenizing => 3 * spec_effective_budget(s.max_tokens) + 3,
        Phase::Allocating => 3 * (s.capacity - s.cursor) + 2,
        Phase::Priming => 3 * (s.capacity - s.cursor) + 1,
        Phase::Sampling => 3 * (s.capacity - s.cursor),
        Phase::Rendering { .. } => 3 * (s.capacity - s.cursor) - 1,
        Phase::Decoding => 3 * (s.capacity - s.cursor) - 2,
        Phase::Stopped { .. } => 0,
        Phase::Failed { .. } => 0,
    }
}

/// Every step keeps the invariant of a generation.
pub proof fn lemma_step_keeps_wf(s: GenerationView, event: EventView)
    requires
        s.wf(),
    ensures
        s.step(event).wf(),
{
}

/// A generation that has ended does not change any more, whatever is
/// reported to it.
pub proof fn lemma_ended_stays(s: GenerationView, event: EventView)
    requires
        s.is_terminal(),
    ensures
        s.step(event) == s,
{
}

/// An event that does not answer the pending action changes nothing.
pub proof fn lemma_unexpected_is_ignored(s: GenerationView, event: EventView)
    requires
        !s.expects(event),
    ensures
        s.step(event) == s,
{
}

/// Every answer to the pending action brings the end nearer: a generation
/// takes in at most three answers for each token of its budget, and three
/// more.
pub proof fn lemma_step_makes_progress(s: GenerationView, event: EventView)
    requires
        s.wf(),
        s.expects(event),
    ensures
        0 <= steps_left(s.step(event)) < steps_left(s),
        steps_left(s) <= 3 * spec_effective_budget(s.max_tokens) + 3,
{
}

/// The cursor never moves back, and the prompt's length is fixed once the
/// prompt has arrived.
pub proof fn lemma_cursor_is_monotonic(s: GenerationView, event: EventView)
    requires
        s.wf(),
    ensures
        s.step(event).cursor >= s.cursor,
        !(s.phase is Tokenizing) ==> s.step(event).prompt_len == s.prompt_len && s.step(
            event,
        ).capacity == s.capacity,
        s.step(event).max_tokens == s.max_tokens,
        s.step(event).prompt == s.prompt,
{
}

/// The context is created once: the generation asks for it after the prompt
/// has arrived, and never again.
pub proof fn lemma_context_is_created_once(s: GenerationView, event: EventView)
    requires
        s.step(event).phase is Allocating,
    ensures
        s.phase is Tokenizing || s.step(event) == s,
{
}

/// A generation never produces more tokens than its effective budget, and
/// its context is never sized for less than the floor.
pub proof fn lemma_output_within_budget(s: GenerationView)
    requires
        s.wf(),
        !(s.phase is Tokenizing),
        !(s.phase is Failed),
    ensures
        0 <= s.out_tokens() <= spec_effective_budget(s.max_tokens),
        s.capacity == s.prompt_len + spec_effective_budget(s.max_tokens),
        s.capacity >= s.prompt_len + MIN_GENERATION_BUDGET,
        s.capacity > 0,
{
}

/// The text only grows while the generation runs: a step appends the text of
/// a token, or leaves the content as it is, unless the generation fails.
pub proof fn lemma_content_only_grows(s: GenerationView, event: EventView)
    requires
        s.wf(),
        !(s.step(event).phase is Failed),
    ensures
        s.content.is_prefix_of(s.step(event).content),
        s.phase is Rendering ==> (event matches EventView::Rendered { text } ==> s.step(
            event,
        ).content == s.content + text),
        !(event is Rendered && s.phase is Rendering) ==> s.step(event).content == s.content,
{
}

} // verus!
