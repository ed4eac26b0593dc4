use lunnama::gen_config_builder::LunnamaGenConfigBuilder;
use lunnama::model::batch::BatchEntry;
use lunnama::model::generation::{LunnamaAction, LunnamaEvent, LunnamaGeneration, Phase};
use lunnama::model::model_builder::{
    LunnamaGenerationError, LunnamaModelResult, StopCause, MIN_GENERATION_BUDGET,
};
use lunnama::model::session::LunnamaSession;
use lunnama::model::transcript::replay;
use lunnama::sampling::{greedy_token, TokenLogit};

const END: i32 = 2;
const PROMPT: &str = "Once upon a time";

/// A runtime that answers from a script.
struct Script {
    prompt: Option<Vec<i32>>,
    window: Option<u32>,
    context_fails: bool,
    samples: Vec<i32>,
    failing_decode: Option<usize>,
    unrenderable: Option<i32>,
    capacity_asked: Option<u32>,
    decodes: Vec<Vec<BatchEntry>>,
    logits_indices: Vec<i32>,
    next_sample: usize,
}

impl Script {
    fn new(prompt_len: usize) -> Script {
        Script {
            prompt: Some((0..prompt_len as i32).map(|i| 100 + i).collect()),
            window: None,
            context_fails: false,
            samples: Vec::new(),
            failing_decode: None,
            unrenderable: None,
            capacity_asked: None,
            decodes: Vec::new(),
            logits_indices: Vec::new(),
            next_sample: 0,
        }
    }

    fn answer(&mut self, generation: &LunnamaGeneration, action: LunnamaAction) -> LunnamaEvent {
        match action {
            LunnamaAction::Tokenize => match &self.prompt {
                Some(tokens) => LunnamaEvent::Tokenized { tokens: tokens.clone() },
                None => LunnamaEvent::TokenizeFailed,
            },
            LunnamaAction::CreateContext { capacity } => {
                self.capacity_asked = Some(capacity);
                if self.context_fails {
                    LunnamaEvent::ContextFailed
                } else {
                    LunnamaEvent::ContextReady { window: self.window.unwrap_or(capacity) }
                }
            }
            LunnamaAction::Decode => {
                let index = self.decodes.len();
                self.decodes.push(generation.batch().entries().clone());
                if self.failing_decode == Some(index) {
                    LunnamaEvent::DecodeFailed
                } else {
                    LunnamaEvent::Decoded
                }
            }
            LunnamaAction::Sample { logits_index } => {
                self.logits_indices.push(logits_index);
                let token = if self.next_sample < self.samples.len() {
                    self.samples[self.next_sample]
                } else {
                    7
                };
                self.next_sample += 1;
                LunnamaEvent::Sampled { token, is_end: token == END }
            }
            LunnamaAction::Render { token } => {
                if self.unrenderable == Some(token) {
                    LunnamaEvent::RenderFailed
                } else {
                    LunnamaEvent::Rendered { text: format!("<{}>", token) }
                }
            }
            LunnamaAction::Finish { .. } | LunnamaAction::Fail { .. } => {
                unreachable!("the generation has ended")
            }
        }
    }
}

fn generate(
    config: &LunnamaGenConfigBuilder,
    script: &mut Script,
) -> Result<LunnamaModelResult, LunnamaGenerationError> {
    let mut generation = LunnamaGeneration::begin(PROMPT, config);
    let mut action = generation.pending_action();
    let mut steps = 0;
    loop {
        match action {
            LunnamaAction::Finish { .. } | LunnamaAction::Fail { .. } => break,
            _ => {}
        }
        let event = script.answer(&generation, action);
        action = generation.step(&event);
        steps += 1;
        assert!(steps <= 3 * 1_000_000 + 3, "the generation does not end");
    }
    match generation.outcome() {
        Some(outcome) => outcome,
        None => panic!("an ended generation has an outcome"),
    }
}

fn config_with(max_tokens: u32) -> LunnamaGenConfigBuilder {
    match LunnamaGenConfigBuilder::default().greedy().max_tokens(max_tokens) {
        Ok(config) => config,
        Err(error) => panic!("{}", error.message()),
    }
}

#[test]
fn end_marker_on_the_third_iteration() {
    let mut script = Script::new(5);
    script.samples = vec![11, 12, END];
    let result = generate(&config_with(1000), &mut script).unwrap();
    assert_eq!(result.input_tokens, 5);
    assert_eq!(result.out_tokens, 2);
    assert_eq!(result.stop_cause, StopCause::EndOfGeneration);
    assert_eq!(result.content, "<11><12>");
    assert_eq!(script.capacity_asked, Some(1005));
}

#[test]
fn end_marker_at_once_gives_an_empty_text() {
    let mut script = Script::new(3);
    script.samples = vec![END];
    let result = generate(&config_with(1000), &mut script).unwrap();
    assert_eq!(result.input_tokens, 3);
    assert_eq!(result.out_tokens, 0);
    assert_eq!(result.content, "");
    assert_eq!(result.stop_cause, StopCause::EndOfGeneration);
    assert_eq!(script.decodes.len(), 1);
}

#[test]
fn small_window_stops_the_loop_early() {
    let mut unconstrained = Script::new(5);
    unconstrained.samples = vec![11, 12, 13, 14, 15, 16, END];
    let full = generate(&config_with(1000), &mut unconstrained).unwrap();
    assert_eq!(full.out_tokens, 6);
    assert_eq!(full.stop_cause, StopCause::EndOfGeneration);

    let mut constrained = Script::new(5);
    constrained.samples = vec![11, 12, 13, 14, 15, 16, END];
    constrained.window = Some(8);
    let cut = generate(&config_with(1000), &mut constrained).unwrap();
    assert_eq!(cut.stop_cause, StopCause::ContextExhausted);
    assert_eq!(cut.input_tokens, 5);
    assert_eq!(cut.out_tokens, 3);
    assert_eq!(cut.content, "<11><12><13>");
    assert!(!cut.content.is_empty());
    assert!(cut.content.len() < full.content.len());
    assert!(full.content.starts_with(&cut.content));
    assert!(cut.out_tokens < 1000);
}

#[test]
fn window_that_holds_only_the_prompt_generates_nothing() {
    let mut script = Script::new(5);
    script.window = Some(5);
    let result = generate(&config_with(1000), &mut script).unwrap();
    assert_eq!(result.stop_cause, StopCause::ContextExhausted);
    assert_eq!(result.out_tokens, 0);
    assert_eq!(result.content, "");
    assert!(script.logits_indices.is_empty());
}

#[test]
fn budget_below_the_floor_is_raised_to_the_floor() {
    let mut script = Script::new(5);
    script.samples = vec![END];
    generate(&config_with(10), &mut script).unwrap();
    assert_eq!(MIN_GENERATION_BUDGET, 1000);
    assert_eq!(script.capacity_asked, Some(5 + 1000));

    let mut unset = Script::new(5);
    unset.samples = vec![END];
    generate(&LunnamaGenConfigBuilder::default(), &mut unset).unwrap();
    assert_eq!(unset.capacity_asked, Some(5 + 1000));

    let mut above = Script::new(5);
    above.samples = vec![END];
    generate(&config_with(2500), &mut above).unwrap();
    assert_eq!(above.capacity_asked, Some(5 + 2500));
}

#[test]
fn budget_below_the_floor_still_generates_up_to_the_floor() {
    let mut script = Script::new(4);
    let result = generate(&config_with(3), &mut script).unwrap();
    assert_eq!(result.stop_cause, StopCause::BudgetExhausted);
    assert_eq!(result.out_tokens, 1000);
    assert_eq!(result.input_tokens, 4);
    assert_eq!(result.content, "<7>".repeat(1000));
}

#[test]
fn budget_exhausted_after_max_tokens() {
    let mut script = Script::new(2);
    let result = generate(&config_with(1200), &mut script).unwrap();
    assert_eq!(result.stop_cause, StopCause::BudgetExhausted);
    assert_eq!(result.out_tokens, 1200);
    assert_eq!(script.decodes.len(), 1201);
    assert_eq!(script.logits_indices.len(), 1200);
}

#[test]
fn generating_twice_gives_the_same_content() {
    let mut first = Script::new(5);
    first.samples = vec![21, 22, 23, 24, END];
    let mut second = Script::new(5);
    second.samples = vec![21, 22, 23, 24, END];
    let config = config_with(1000);
    let a = generate(&config, &mut first).unwrap();
    let b = generate(&config, &mut second).unwrap();
    assert_eq!(a.content, "<21><22><23><24>");
    assert_eq!(a.content, b.content);
    assert_eq!(a.out_tokens, b.out_tokens);
    assert_eq!(a.input_tokens, b.input_tokens);
    assert_eq!(a.stop_cause, b.stop_cause);
}

#[test]
fn generating_twice_with_greedy_selection_gives_the_same_content() {
    let rows: Vec<Vec<f32>> = vec![
        vec![0.0, 1.0, -1.0, 0.5],
        vec![0.0, 0.1, -1.0, 3.5],
        vec![0.0, 0.1, 9.0, 3.5],
    ];
    let mut contents = Vec::new();
    for _ in 0..2 {
        let mut script = Script::new(5);
        for row in rows.iter() {
            let mut data = Vec::new();
            for (i, logit) in row.iter().enumerate() {
                data.push(TokenLogit { token: i as i32, logit: logit.to_bits() });
            }
            script.samples.push(greedy_token(&data).unwrap());
        }
        let result = generate(&config_with(1000), &mut script).unwrap();
        assert_eq!(result.stop_cause, StopCause::EndOfGeneration);
        contents.push(result.content);
    }
    assert_eq!(contents[0], "<1><3>");
    assert_eq!(contents[0], contents[1]);
}

#[test]
fn first_batch_holds_the_prompt_with_logits_at_the_end() {
    let mut script = Script::new(4);
    script.samples = vec![END];
    generate(&config_with(1000), &mut script).unwrap();
    assert_eq!(
        script.decodes[0],
        vec![
            BatchEntry { token: 100, position: 0, sequence: 0, emit_logits: false },
            BatchEntry { token: 101, position: 1, sequence: 0, emit_logits: false },
            BatchEntry { token: 102, position: 2, sequence: 0, emit_logits: false },
            BatchEntry { token: 103, position: 3, sequence: 0, emit_logits: true },
        ]
    );
    assert_eq!(script.logits_indices, vec![3]);
}

#[test]
fn later_batches_hold_the_new_token_alone() {
    let mut script = Script::new(4);
    script.samples = vec![31, 32, END];
    generate(&config_with(1000), &mut script).unwrap();
    assert_eq!(script.decodes.len(), 3);
    assert_eq!(
        script.decodes[1],
        vec![BatchEntry { token: 31, position: 4, sequence: 0, emit_logits: true }]
    );
    assert_eq!(
        script.decodes[2],
        vec![BatchEntry { token: 32, position: 5, sequence: 0, emit_logits: true }]
    );
    assert_eq!(script.logits_indices, vec![3, 0, 0]);
}

#[test]
fn tokenization_failure_is_an_error() {
    let mut script = Script::new(1);
    script.prompt = None;
    assert_eq!(
        generate(&config_with(1000), &mut script).err(),
        Some(LunnamaGenerationError::Tokenization)
    );
    assert_eq!(script.capacity_asked, None);
}

#[test]
fn context_failure_is_a_capacity_error() {
    let mut script = Script::new(5);
    script.context_fails = true;
    assert_eq!(
        generate(&config_with(1000), &mut script).err(),
        Some(LunnamaGenerationError::Capacity)
    );
    assert!(script.decodes.is_empty());
}

#[test]
fn budget_beyond_any_context_is_a_capacity_error() {
    let mut script = Script::new(5);
    assert_eq!(
        generate(&config_with(i32::MAX as u32 - 4), &mut script).err(),
        Some(LunnamaGenerationError::Capacity)
    );
    assert_eq!(script.capacity_asked, None);

    let mut fits = Script::new(5);
    fits.samples = vec![END];
    fits.window = Some(4096);
    assert!(generate(&config_with(i32::MAX as u32 - 5), &mut fits).is_ok());
    assert_eq!(fits.capacity_asked, Some(i32::MAX as u32));
}

#[test]
fn failure_of_the_first_decode_is_an_error() {
    let mut script = Script::new(5);
    script.failing_decode = Some(0);
    assert_eq!(
        generate(&config_with(1000), &mut script).err(),
        Some(LunnamaGenerationError::Decode)
    );
    assert!(script.logits_indices.is_empty());
}

#[test]
fn failure_of_a_later_decode_drops_the_text() {
    let mut script = Script::new(5);
    script.samples = vec![11, 12, 13, END];
    script.failing_decode = Some(2);
    assert_eq!(
        generate(&config_with(1000), &mut script).err(),
        Some(LunnamaGenerationError::Decode)
    );
}

#[test]
fn unrenderable_token_is_an_error() {
    let mut script = Script::new(5);
    script.samples = vec![11, 12, END];
    script.unrenderable = Some(12);
    assert_eq!(
        generate(&config_with(1000), &mut script).err(),
        Some(LunnamaGenerationError::Detokenization)
    );
    assert_eq!(script.decodes.len(), 2);
}

#[test]
fn empty_prompt_is_decoded_as_an_empty_batch() {
    let mut script = Script::new(0);
    script.failing_decode = Some(0);
    assert_eq!(
        generate(&config_with(1000), &mut script).err(),
        Some(LunnamaGenerationError::Decode)
    );
    assert_eq!(script.decodes, vec![Vec::new()]);
    assert_eq!(script.capacity_asked, Some(1000));
}

#[test]
fn a_running_generation_has_no_outcome() {
    let generation = LunnamaGeneration::begin(PROMPT, &config_with(1000));
    assert_eq!(generation.phase(), Phase::Tokenizing);
    assert_eq!(generation.pending_action(), LunnamaAction::Tokenize);
    assert!(generation.outcome().is_none());
}

#[test]
fn unexpected_events_change_nothing() {
    let mut generation = LunnamaGeneration::begin(PROMPT, &config_with(1000));
    assert_eq!(generation.step(&LunnamaEvent::Decoded), LunnamaAction::Tokenize);
    assert_eq!(
        generation.step(&LunnamaEvent::Sampled { token: 1, is_end: true }),
        LunnamaAction::Tokenize
    );
    assert_eq!(
        generation.step(&LunnamaEvent::Tokenized { tokens: vec![1, 5, 6] }),
        LunnamaAction::CreateContext { capacity: 1003 }
    );
    assert_eq!(
        generation.step(&LunnamaEvent::Tokenized { tokens: vec![1] }),
        LunnamaAction::CreateContext { capacity: 1003 }
    );
    assert_eq!(
        generation.step(&LunnamaEvent::Rendered { text: String::from("x") }),
        LunnamaAction::CreateContext { capacity: 1003 }
    );
    assert_eq!(generation.cursor(), 3);
    assert_eq!(generation.phase(), Phase::Allocating);
}

#[test]
fn an_ended_generation_stays_ended() {
    let mut generation = LunnamaGeneration::begin(PROMPT, &config_with(1000));
    generation.step(&LunnamaEvent::TokenizeFailed);
    let fail = LunnamaAction::Fail { error: LunnamaGenerationError::Tokenization };
    assert_eq!(generation.pending_action(), fail);
    assert_eq!(generation.step(&LunnamaEvent::Tokenized { tokens: vec![1] }), fail);
    assert_eq!(generation.step(&LunnamaEvent::Decoded), fail);
    assert_eq!(
        generation.outcome().unwrap().err(),
        Some(LunnamaGenerationError::Tokenization)
    );
}

#[test]
fn actions_follow_the_loop() {
    let mut generation = LunnamaGeneration::begin(PROMPT, &config_with(1000));
    assert_eq!(
        generation.step(&LunnamaEvent::Tokenized { tokens: vec![1, 50] }),
        LunnamaAction::CreateContext { capacity: 1002 }
    );
    assert_eq!(
        generation.step(&LunnamaEvent::ContextReady { window: 2048 }),
        LunnamaAction::Decode
    );
    assert_eq!(generation.phase(), Phase::Priming);
    assert_eq!(generation.step(&LunnamaEvent::Decoded), LunnamaAction::Sample { logits_index: 1 });
    assert_eq!(
        generation.step(&LunnamaEvent::Sampled { token: 9, is_end: false }),
        LunnamaAction::Render { token: 9 }
    );
    assert_eq!(generation.phase(), Phase::Rendering { token: 9 });
    assert_eq!(
        generation.step(&LunnamaEvent::Rendered { text: String::from("hi") }),
        LunnamaAction::Decode
    );
    assert_eq!(generation.cursor(), 2);
    assert_eq!(generation.step(&LunnamaEvent::Decoded), LunnamaAction::Sample { logits_index: 0 });
    assert_eq!(generation.cursor(), 3);
    assert_eq!(
        generation.step(&LunnamaEvent::Sampled { token: END, is_end: true }),
        LunnamaAction::Finish { cause: StopCause::EndOfGeneration }
    );
    let result = generation.outcome().unwrap().unwrap();
    assert_eq!(result.content, "hi");
    assert_eq!(result.input_tokens, 2);
    assert_eq!(result.out_tokens, 1);
}

fn recorded(count: usize) -> Vec<LunnamaEvent> {
    let mut events = vec![
        LunnamaEvent::Tokenized { tokens: vec![1, 2, 3, 4, 5] },
        LunnamaEvent::ContextReady { window: 1005 },
        LunnamaEvent::Decoded,
        LunnamaEvent::Sampled { token: 11, is_end: false },
        LunnamaEvent::Rendered { text: String::from("Hello") },
        LunnamaEvent::Decoded,
        LunnamaEvent::Sampled { token: 12, is_end: false },
        LunnamaEvent::Rendered { text: String::from(", world") },
        LunnamaEvent::Decoded,
        LunnamaEvent::Sampled { token: END, is_end: true },
    ];
    events.truncate(count);
    events
}

#[test]
fn replay_runs_a_recorded_generation() {
    let result = replay(PROMPT, &config_with(1000), &recorded(10)).outcome().unwrap().unwrap();
    assert_eq!(result.content, "Hello, world");
    assert_eq!(result.input_tokens, 5);
    assert_eq!(result.out_tokens, 2);
    assert_eq!(result.stop_cause, StopCause::EndOfGeneration);

    let again = replay(PROMPT, &config_with(1000), &recorded(10)).outcome().unwrap().unwrap();
    assert_eq!(again.content, result.content);
}

#[test]
fn replay_of_a_part_stops_where_the_record_stops() {
    let unfinished = replay(PROMPT, &config_with(1000), &recorded(6));
    assert_eq!(unfinished.phase(), Phase::Sampling);
    assert_eq!(unfinished.cursor(), 6);
    assert_eq!(unfinished.pending_action(), LunnamaAction::Sample { logits_index: 0 });
    assert!(unfinished.outcome().is_none());

    let nothing = replay(PROMPT, &config_with(1000), &Vec::new());
    assert_eq!(nothing.phase(), Phase::Tokenizing);
    assert_eq!(nothing.prompt(), PROMPT);
}

#[test]
fn replay_ignores_what_follows_the_end() {
    let mut events = recorded(10);
    events.push(LunnamaEvent::Decoded);
    events.push(LunnamaEvent::Rendered { text: String::from("more") });
    let result = replay(PROMPT, &config_with(1000), &events).outcome().unwrap().unwrap();
    assert_eq!(result.content, "Hello, world");
    assert_eq!(result.out_tokens, 2);
}

#[test]
fn session_binds_model_and_settings() {
    let model = String::from("a model");
    let session = LunnamaSession::new(&model);
    assert_eq!(session.config().current_max_tokens(), 1000);
    assert!(session.config().current_top_k() > 0);
    assert!((0.0..=2.0).contains(&f32::from_bits(session.config().current_temperature())));
    assert!((0.0..=1.0).contains(&f32::from_bits(session.config().current_top_p())));
    assert!(!session.config().is_greedy());
    assert_eq!(session.model(), &model);

    let session = session.with_config(config_with(1234));
    assert_eq!(session.config().current_max_tokens(), 1234);
    assert!(session.config().is_greedy());
    assert_eq!(session.model(), &model);

    let mut generation = session.generate("Tell me");
    assert_eq!(generation.prompt(), "Tell me");
    assert_eq!(
        generation.step(&LunnamaEvent::Tokenized { tokens: vec![1, 2] }),
        LunnamaAction::CreateContext { capacity: 1236 }
    );
}

#[test]
fn session_with_unset_budget_runs_with_the_floor() {
    let model = 0u8;
    let mut generation = LunnamaSession::new(&model).generate("Tell me");
    assert_eq!(
        generation.step(&LunnamaEvent::Tokenized { tokens: vec![1, 2, 3] }),
        LunnamaAction::CreateContext { capacity: 1003 }
    );
}

#[test]
fn a_generation_takes_three_answers_for_each_token_and_three_more() {
    let mut script = Script::new(6);
    let mut generation = LunnamaGeneration::begin(PROMPT, &config_with(1500));
    let mut action = generation.pending_action();
    let mut answers = 0;
    loop {
        match action {
            LunnamaAction::Finish { .. } | LunnamaAction::Fail { .. } => break,
            _ => {}
        }
        let event = script.answer(&generation, action);
        action = generation.step(&event);
        answers += 1;
    }
    assert_eq!(answers, 3 * 1500 + 3);
    assert_eq!(action, LunnamaAction::Finish { cause: StopCause::BudgetExhausted });
}
