//! Whole generations: a generation replayed from a recorded sequence of
//! events, and what comes out when the runtime never fails.
use vstd::prelude::*;
use crate::gen_config_builder::LunnamaGenConfigBuilder;
use crate::model::batch::MAX_CAPACITY;
use crate::model::generation::{
    EventView, GenerationView, LunnamaEvent, LunnamaGeneration, Phase,
};
use crate::model::model_builder::{
    spec_effective_budget, spec_required_capacity, LunnamaGenerationError, ModelResultView,
    StopCause,
};
use crate::model::progress::lemma_step_keeps_wf;

verus! {

/// The generation after a sequence of events, taken in order.
pub open spec fn run(s: GenerationView, events: Seq<EventView>) -> GenerationView
    decreases events.len(),
{
    if events.len() == 0 {
        s
    } else {
        run(s, events.drop_last()).step(events.last())
    }
}

/// The mathematical values of recorded events.
pub open spec fn event_views(events: Seq<LunnamaEvent>) -> Seq<EventView> {
    events.map_values(|event: LunnamaEvent| event@)
}

/// Runs a whole generation from recorded events: starts with `prompt` and
/// the budget of `config`, and takes the events in, one after the other.
pub fn replay(
    prompt: &str,
    config: &LunnamaGenConfigBuilder,
    events: &Vec<LunnamaEvent>,
) -> (generation: LunnamaGeneration)
    ensures
        generation.wf(),
        generation@ == run(
            GenerationView::initial(prompt@, config@.max_tokens),
            event_views(events@),
        ),
{
    let mut generation = LunnamaGeneration::begin(prompt, config);
    let ghost start = generation@;
    let ghost views = event_views(events@);
    let count: usize = events.len();
    let mut i: usize = 0;
    while i < count
        invariant
            count == events@.len(),
            i <= count,
            views == event_views(events@),
            generation.wf(),
            generation@ == run(start, views.subrange(0, i as int)),
        decreases count - i,
    {
        generation.step(&events[i]);
        proof {
            let next = views.subrange(0, i + 1);
            assert(next.drop_last() =~= views.subrange(0, i as int));
            assert(next.last() == events@[i as int]@);
        }
        i = i + 1;
    }
    proof {
        assert(views.subrange(0, i as int) =~= views);
    }
    generation
}

/// Running over two sequences of events, one after the other, is running
/// over their concatenation.
pub proof fn lemma_run_concat(s: GenerationView, first: Seq<EventView>, second: Seq<EventView>)
    ensures
        run(s, first + second) == run(run(s, first), second),
    decreases second.len(),
{
    if second.len() == 0 {
        assert(first + second =~= first);
    } else {
        lemma_run_concat(s, first, second.drop_last());
        assert((first + second).drop_last() =~= first + second.drop_last());
        assert((first + second).last() == second.last());
    }
}

/// Every run keeps the invariant of a generation.
pub proof fn lemma_run_keeps_wf(s: GenerationView, events: Seq<EventView>)
    requires
        s.wf(),
    ensures
        run(s, events).wf(),
    decreases events.len(),
{
    if events.len() > 0 {
        lemma_run_keeps_wf(s, events.drop_last());
        lemma_step_keeps_wf(run(s, events.drop_last()), events.last());
    }
}

/// A generation that has ended stays as it is, whatever events follow.
pub proof fn lemma_run_after_end(s: GenerationView, events: Seq<EventView>)
    requires
        s.is_terminal(),
    ensures
        run(s, events) == s,
    decreases events.len(),
{
    if events.len() > 0 {
        lemma_run_after_end(s, events.drop_last());
    }
}

/// A token that the sampler chose, with the text that it renders to.
pub struct Fragment {
    pub token: i32,
    pub text: Seq<char>,
}

/// What a runtime that does not fail reports while one token is generated:
/// the token, which does not end the generation; its text; the decode.
pub open spec fn round(fragment: Fragment) -> Seq<EventView> {
    seq![
        EventView::Sampled { token: fragment.token, is_end: false },
        EventView::Rendered { text: fragment.text },
        EventView::Decoded,
    ]
}

/// The events of the rounds of `fragments`, in order.
pub open spec fn rounds(fragments: Seq<Fragment>) -> Seq<EventView>
    decreases fragments.len(),
{
    if fragments.len() == 0 {
        Seq::empty()
    } else {
        rounds(fragments.drop_last()) + round(fragments.last())
    }
}

/// The texts of `fragments`, one after the other.
pub open spec fn joined_text(fragments: Seq<Fragment>) -> Seq<char>
    decreases fragments.len(),
{
    if fragments.len() == 0 {
        Seq::empty()
    } else {
        joined_text(fragments.drop_last()) + fragments.last().text
    }
}

/// What a runtime that does not fail reports before the first token is
/// sampled: the prompt's tokens, a context with `window` positions, and the
/// decode of the prompt.
pub open spec fn opening(tokens: Seq<i32>, window: u32) -> Seq<EventView> {
    seq![
        EventView::Tokenized { tokens },
        EventView::ContextReady { window },
        EventView::Decoded,
    ]
}

/// The first position that the loop cannot fill: the capacity or the window,
/// whichever is smaller.
pub open spec fn limit(s: GenerationView) -> nat {
    if s.capacity <= s.window {
        s.capacity
    } else {
        s.window
    }
}

/// The cause with which a generation stops at its limit.
pub open spec fn cause_at_limit(s: GenerationView) -> StopCause {
    if s.capacity <= s.window {
        StopCause::BudgetExhausted
    } else {
        StopCause::ContextExhausted
    }
}

/// One round moves a sampling generation one position on and appends the
/// text; the generation then samples again, or stops because it has reached
/// its limit.
pub proof fn lemma_one_round(s: GenerationView, fragment: Fragment)
    requires
        s.wf(),
        s.phase is Sampling,
    ensures
        run(s, round(fragment)) == (GenerationView {
            phase: if s.cursor + 1 < limit(s) {
                Phase::Sampling
            } else {
                Phase::Stopped { cause: cause_at_limit(s) }
            },
            cursor: s.cursor + 1,
            content: s.content + fragment.text,
            batch: s.rendered(fragment.token, fragment.text).batch,
            ..s
        }),
{
    let events = round(fragment);
    let e0 = events.drop_last().drop_last();
    assert(e0.drop_last() =~= Seq::<EventView>::empty());
    assert(run(s, e0.drop_last()) == s);
    let s1 = s.step(events[0]);
    assert(run(s, e0) == s1);
    let s2 = s1.step(events[1]);
    assert(run(s, events.drop_last()) == s2);
}

/// While a generation samples, `fragments.len()` rounds that stay within the
/// limit move the cursor on by as many positions and append the texts in
/// order. The generation stops exactly when the limit is reached: for want
/// of budget where the capacity is the limit, for want of room in the
/// context where the window is.
pub proof fn lemma_rounds(s: GenerationView, fragments: Seq<Fragment>)
    requires
        s.wf(),
        s.phase is Sampling,
        s.cursor + fragments.len() <= limit(s),
    ensures
        run(s, rounds(fragments)).wf(),
        run(s, rounds(fragments)).cursor == s.cursor + fragments.len(),
        run(s, rounds(fragments)).content == s.content + joined_text(fragments),
        run(s, rounds(fragments)).prompt_len == s.prompt_len,
        run(s, rounds(fragments)).capacity == s.capacity,
        run(s, rounds(fragments)).window == s.window,
        run(s, rounds(fragments)).max_tokens == s.max_tokens,
        run(s, rounds(fragments)).phase == if s.cursor + fragments.len() < limit(s) {
            Phase::Sampling
        } else {
            Phase::Stopped { cause: cause_at_limit(s) }
        },
    decreases fragments.len(),
{
    if fragments.len() == 0 {
        assert(s.content + joined_text(fragments) =~= s.content);
    } else {
        let before = fragments.drop_last();
        lemma_rounds(s, before);
        let mid = run(s, rounds(before));
        lemma_run_concat(s, rounds(before), round(fragments.last()));
        lemma_one_round(mid, fragments.last());
        assert(s.content + joined_text(before) + fragments.last().text =~= s.content + joined_text(
            fragments,
        ));
    }
}

/// The opening of a generation whose prompt and budget fit: the context is
/// sized for the prompt and the effective budget, and the generation samples
/// at the cursor that follows the prompt, or stops at once where the window
/// holds no further position.
pub proof fn lemma_opening(prompt: Seq<char>, max_tokens: u32, tokens: Seq<i32>, window: u32)
    requires
        spec_required_capacity(tokens.len(), max_tokens) <= MAX_CAPACITY,
    ensures
        ({
            let s = run(GenerationView::initial(prompt, max_tokens), opening(tokens, window));
            &&& s.wf()
            &&& s.max_tokens == max_tokens
            &&& s.prompt_len == tokens.len()
            &&& s.cursor == tokens.len()
            &&& s.capacity == tokens.len() + spec_effective_budget(max_tokens)
            &&& s.window == window
            &&& s.content == Seq::<char>::empty()
            &&& s.phase == if tokens.len() < window {
                Phase::Sampling
            } else {
                Phase::Stopped { cause: StopCause::ContextExhausted }
            }
        }),
{
    let start = GenerationView::initial(prompt, max_tokens);
    let events = opening(tokens, window);
    let e0 = events.drop_last().drop_last();
    assert(e0.drop_last() =~= Seq::<EventView>::empty());
    assert(run(start, e0.drop_last()) == start);
    let s1 = start.step(events[0]);
    assert(run(start, e0) == s1);
    let s2 = s1.step(events[1]);
    assert(run(start, events.drop_last()) == s2);
}

/// A generation in which the sampler chooses the end marker after
/// `fragments.len()` other tokens, while budget and window still have room,
/// stops for that reason. Its result holds the texts of those tokens in
/// order and counts them as its output; the end marker adds neither text nor
/// a token.
pub proof fn lemma_ends_at_end_marker(
    prompt: Seq<char>,
    max_tokens: u32,
    tokens: Seq<i32>,
    window: u32,
    fragments: Seq<Fragment>,
    end_token: i32,
)
    requires
        spec_required_capacity(tokens.len(), max_tokens) <= MAX_CAPACITY,
        tokens.len() + fragments.len() < window,
        fragments.len() < spec_effective_budget(max_tokens),
    ensures
        run(
            GenerationView::initial(prompt, max_tokens),
            opening(tokens, window) + rounds(fragments) + seq![
                EventView::Sampled { token: end_token, is_end: true },
            ],
        ).outcome() == Some(
            Ok::<ModelResultView, LunnamaGenerationError>(
                ModelResultView {
                    content: joined_text(fragments),
                    input_tokens: tokens.len() as u32,
                    out_tokens: fragments.len() as u32,
                    stop_cause: StopCause::EndOfGeneration,
                },
            ),
        ),
{
    let start = GenerationView::initial(prompt, max_tokens);
    let last = seq![EventView::Sampled { token: end_token, is_end: true }];
    lemma_opening(prompt, max_tokens, tokens, window);
    let opened = run(start, opening(tokens, window));
    lemma_rounds(opened, fragments);
    let sampled = run(opened, rounds(fragments));
    lemma_run_concat(start, opening(tokens, window), rounds(fragments));
    lemma_run_concat(start, opening(tokens, window) + rounds(fragments), last);
    assert(last.drop_last() =~= Seq::<EventView>::empty());
    assert(run(sampled, last.drop_last()) == sampled);
    assert(run(sampled, last) == sampled.step(last[0]));
    assert(Seq::<char>::empty() + joined_text(fragments) =~= joined_text(fragments));
}

/// A generation whose sampler never chooses the end marker runs until the
/// budget is spent or the window is full, whichever comes first. Where the
/// window is smaller than the capacity asked for, it stops for want of room
/// in the context, with fewer tokens than the budget allows; otherwise it
/// stops with exactly the effective budget, which is never less than the
/// floor. Either way the result holds the texts of the tokens in order.
pub proof fn lemma_runs_to_the_limit(
    prompt: Seq<char>,
    max_tokens: u32,
    tokens: Seq<i32>,
    window: u32,
    fragments: Seq<Fragment>,
)
    requires
        spec_required_capacity(tokens.len(), max_tokens) <= MAX_CAPACITY,
        tokens.len() <= window,
        tokens.len() + fragments.len() == if window < spec_required_capacity(
            tokens.len(),
            max_tokens,
        ) {
            window as nat
        } else {
            spec_required_capacity(tokens.len(), max_tokens)
        },
    ensures
        run(
            GenerationView::initial(prompt, max_tokens),
            opening(tokens, window) + rounds(fragments),
        ).outcome() == Some(
            Ok::<ModelResultView, LunnamaGenerationError>(
                ModelResultView {
                    content: joined_text(fragments),
                    input_tokens: tokens.len() as u32,
                    out_tokens: fragments.len() as u32,
                    stop_cause: if window < spec_required_capacity(tokens.len(), max_tokens) {
                        StopCause::ContextExhausted
                    } else {
                        StopCause::BudgetExhausted
                    },
                },
            ),
        ),
        window >= spec_required_capacity(tokens.len(), max_tokens) ==> fragments.len()
            == spec_effective_budget(max_tokens),
        window < spec_required_capacity(tokens.len(), max_tokens) ==> fragments.len()
            < spec_effective_budget(max_tokens),
{
    let start = GenerationView::initial(prompt, max_tokens);
    lemma_opening(prompt, max_tokens, tokens, window);
    let opened = run(start, opening(tokens, window));
    lemma_run_concat(start, opening(tokens, window), rounds(fragments));
    if tokens.len() < window {
        lemma_rounds(opened, fragments);
    } else {
        assert(fragments.len() == 0);
        assert(rounds(fragments) =~= Seq::<EventView>::empty());
    }
    assert(Seq::<char>::empty() + joined_text(fragments) =~= joined_text(fragments));
}

/// A generation can be repeated: with the same prompt tokens and the same
/// choices of the sampler, two generations end with the same result, each in
/// a context of its own, whatever the two windows are beyond what the tokens
/// need.
pub proof fn lemma_generation_is_repeatable(
    prompt: Seq<char>,
    max_tokens: u32,
    tokens: Seq<i32>,
    first_window: u32,
    second_window: u32,
    fragments: Seq<Fragment>,
    end_token: i32,
)
    requires
        spec_required_capacity(tokens.len(), max_tokens) <= MAX_CAPACITY,
        tokens.len() + fragments.len() < first_window,
        tokens.len() + fragments.len() < second_window,
        fragments.len() < spec_effective_budget(max_tokens),
    ensures
        run(
            GenerationView::initial(prompt, max_tokens),
            opening(tokens, first_window) + rounds(fragments) + seq![
                EventView::Sampled { token: end_token, is_end: true },
            ],
        ).outcome() == run(
            GenerationView::initial(prompt, max_tokens),
            opening(tokens, second_window) + rounds(fragments) + seq![
                EventView::Sampled { token: end_token, is_end: true },
            ],
        ).outcome(),
{
    lemma_ends_at_end_marker(prompt, max_tokens, tokens, first_window, fragments, end_token);
    lemma_ends_at_end_marker(prompt, max_tokens, tokens, second_window, fragments, end_token);
}

/// Whether each of `fragments` has some text.
pub open spec fn all_have_text(fragments: Seq<Fragment>) -> bool {
    forall|i: int| 0 <= i < fragments.len() ==> (#[trigger] fragments[i]).text.len() > 0
}

/// The texts of the first `k` fragments, joined, begin the joined texts of
/// all of them. Where every fragment has some text, the beginning is shorter
/// than the whole as soon as a fragment is left out, and it is not empty as
/// soon as one is taken.
pub proof fn lemma_joined_text_prefix(fragments: Seq<Fragment>, k: int)
    requires
        0 <= k <= fragments.len(),
    ensures
        joined_text(fragments.subrange(0, k)).is_prefix_of(joined_text(fragments)),
        all_have_text(fragments) && k < fragments.len() ==> joined_text(
            fragments.subrange(0, k),
        ).len() < joined_text(fragments).len(),
        all_have_text(fragments) && k > 0 ==> joined_text(fragments.subrange(0, k)).len() > 0,
    decreases fragments.len(),
{
    if k == fragments.len() {
        assert(fragments.subrange(0, k) =~= fragments);
        assert(joined_text(fragments) =~= joined_text(fragments).subrange(
            0,
            joined_text(fragments).len() as int,
        ));
        if k > 0 && all_have_text(fragments) {
            assert(fragments.last() == fragments[fragments.len() - 1]);
        }
    } else {
        let before = fragments.drop_last();
        let head = joined_text(fragments.subrange(0, k));
        assert(before.subrange(0, k) =~= fragments.subrange(0, k));
        lemma_joined_text_prefix(before, k);
        assert(joined_text(fragments) == joined_text(before) + fragments.last().text);
        assert(head =~= joined_text(fragments).subrange(0, head.len() as int)) by {
            assert(head =~= joined_text(before).subrange(0, head.len() as int));
        }
        if all_have_text(fragments) {
            assert(fragments.last() == fragments[fragments.len() - 1]);
            assert(all_have_text(before)) by {
                assert forall|i: int| 0 <= i < before.len() implies (#[trigger] before[i]).text.len()
                    > 0 by {
                    assert(before[i] == fragments[i]);
                }
            }
        }
    }
}

/// A window that is too small cuts the text short. Take a generation that
/// ends at the end marker after `fragments`, each with some text, in a
/// context that is large enough. The same generation in a context whose
/// `window` holds the prompt and some, but not all, of those tokens stops
/// for want of room, with fewer tokens than the budget allows; its text is
/// not empty, and it is a shorter beginning of the other's text.
pub proof fn lemma_smaller_window_cuts_the_text(
    prompt: Seq<char>,
    max_tokens: u32,
    tokens: Seq<i32>,
    window: u32,
    wide_window: u32,
    fragments: Seq<Fragment>,
    end_token: i32,
)
    requires
        spec_required_capacity(tokens.len(), max_tokens) <= MAX_CAPACITY,
        all_have_text(fragments),
        fragments.len() < spec_effective_budget(max_tokens),
        tokens.len() < window < tokens.len() + fragments.len() < wide_window,
    ensures
        ({
            let kept = fragments.subrange(0, window - tokens.len());
            let cut = run(
                GenerationView::initial(prompt, max_tokens),
                opening(tokens, window) + rounds(kept),
            ).outcome();
            let full = run(
                GenerationView::initial(prompt, max_tokens),
                opening(tokens, wide_window) + rounds(fragments) + seq![
                    EventView::Sampled { token: end_token, is_end: true },
                ],
            ).outcome();
            &&& cut == Some(
                Ok::<ModelResultView, LunnamaGenerationError>(
                    ModelResultView {
                        content: joined_text(kept),
                        input_tokens: tokens.len() as u32,
                        out_tokens: (window - tokens.len()) as u32,
                        stop_cause: StopCause::ContextExhausted,
                    },
                ),
            )
            &&& full == Some(
                Ok::<ModelResultView, LunnamaGenerationError>(
                    ModelResultView {
                        content: joined_text(fragments),
                        input_tokens: tokens.len() as u32,
                        out_tokens: fragments.len() as u32,
                        stop_cause: StopCause::EndOfGeneration,
                    },
                ),
            )
            &&& window - tokens.len() < spec_effective_budget(max_tokens)
            &&& joined_text(kept).len() > 0
            &&& joined_text(kept).len() < joined_text(fragments).len()
            &&& joined_text(kept).is_prefix_of(joined_text(fragments))
        }),
{
    let k = window - tokens.len();
    let kept = fragments.subrange(0, k);
    lemma_runs_to_the_limit(prompt, max_tokens, tokens, window, kept);
    lemma_ends_at_end_marker(prompt, max_tokens, tokens, wide_window, fragments, end_token);
    lemma_joined_text_prefix(fragments, k);
}

} // verus!
