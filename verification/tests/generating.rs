use ai_base::error::{InputError, RuntimeError};
use ai_base::generation::{resolve_eos, Action, Generation, Phase, Reply};
use ai_base::sampler::{sample, SamplingParams};

/// A toy model with fixed weights: the mass of token `t` after a context that
/// ends in `last` at position `pos`.
fn toy_masses(last: u32, pos: usize) -> Vec<u32> {
    (0..8u32).map(|t| ((t * 37 + last * 11 + pos as u32 * 5) % 23) + 1).collect()
}

struct Run {
    generated: Vec<u32>,
    forward_lens: Vec<usize>,
    forward_offsets: Vec<usize>,
    samples: usize,
    forwarded: usize,
    position_offset: usize,
}

fn run(prompt: Vec<u32>, max_new_tokens: usize, max_seq_len: usize, eos: u32) -> Result<Run, InputError> {
    let greedy = SamplingParams { temperature: 0, top_p: 900_000, top_k: 40 };
    let (mut generation, mut action) = Generation::start(prompt, max_new_tokens, max_seq_len, eos)?;
    let mut forward_lens = Vec::new();
    let mut forward_offsets = Vec::new();
    let mut samples = 0;
    let mut masses = Vec::new();
    loop {
        let reply = match action {
            Action::Finish => break,
            Action::Forward { tokens, position_offset } => {
                forward_lens.push(tokens.len());
                forward_offsets.push(position_offset);
                masses = toy_masses(tokens[tokens.len() - 1], position_offset + tokens.len());
                Reply::Logits
            }
            Action::Sample => {
                samples += 1;
                Reply::Token(sample(&masses, &greedy, 0))
            }
        };
        let (next, asked) = generation.step(reply);
        generation = next;
        action = asked.expect("the reply was asked for");
    }
    assert_eq!(generation.phase(), Phase::Done);
    Ok(Run {
        forwarded: generation.forwarded(),
        position_offset: generation.position_offset(),
        generated: generation.into_tokens(),
        forward_lens,
        forward_offsets,
        samples,
    })
}

#[test]
fn a_fixed_model_at_temperature_zero_repeats_its_tokens() {
    // "Hello" as three tokens
    let prompt = vec![3, 1, 4];
    let first = run(prompt.clone(), 5, 2048, 100).unwrap();
    assert_eq!(first.generated.len(), 5);
    for _ in 0..10 {
        let again = run(prompt.clone(), 5, 2048, 100).unwrap();
        assert_eq!(again.generated, first.generated);
    }
    let mut expected = Vec::new();
    let mut last = 4u32;
    let mut pos = 3usize;
    for _ in 0..5 {
        let masses = toy_masses(last, pos);
        let best = (0..8).max_by_key(|&t| (masses[t], 8 - t)).unwrap() as u32;
        expected.push(best);
        last = best;
        pos += 1;
    }
    assert_eq!(first.generated, expected);
}

#[test]
fn forward_calls_take_each_token_once() {
    let run = run(vec![3, 1, 4, 1, 5], 7, 2048, 100).unwrap();
    assert_eq!(run.generated.len(), 7);
    assert_eq!(run.forward_lens, vec![5, 1, 1, 1, 1, 1, 1, 1]);
    assert_eq!(run.forward_offsets, vec![0, 5, 6, 7, 8, 9, 10, 11]);
    assert_eq!(run.forward_lens.iter().sum::<usize>(), 5 + 7);
    assert_eq!(run.forwarded, 12);
    assert_eq!(run.position_offset, 12);
    assert_eq!(run.samples, 7);
}

#[test]
fn no_new_tokens_means_no_forward_call_beyond_the_prefill() {
    let run = run(vec![3, 1, 4], 0, 2048, 100).unwrap();
    assert!(run.generated.is_empty());
    assert_eq!(run.forward_lens, vec![3]);
    assert_eq!(run.samples, 0);
    assert_eq!(run.forwarded, 3);
}

#[test]
fn a_prompt_beyond_the_limit_is_refused_before_any_forward_call() {
    let r = Generation::start(vec![1, 2, 3, 4], 5, 3, 100);
    match r {
        Err(e) => assert_eq!(e, InputError::PromptTooLong { len: 4, max: 3 }),
        Ok(_) => panic!("the prompt is too long"),
    }
    assert!(run(vec![1, 2, 3, 4], 5, 3, 100).is_err());
    assert!(Generation::start(vec![1, 2, 3], 5, 3, 100).is_ok());
}

#[test]
fn the_start_asks_for_the_whole_prompt_at_position_zero() {
    let (generation, action) = match Generation::start(vec![9, 8], 3, 10, 100) {
        Ok(started) => started,
        Err(_) => panic!("the prompt fits"),
    };
    assert_eq!(action, Action::Forward { tokens: vec![9, 8], position_offset: 0 });
    assert_eq!(generation.phase(), Phase::Prefill);
    assert_eq!(generation.forwarded(), 2);
    assert_eq!(generation.position_offset(), 0);
    assert!(generation.generated().is_empty());
}

#[test]
fn the_end_token_stops_the_generation_and_is_not_kept() {
    let (generation, _) = Generation::start(vec![9, 8], 3, 10, 7).ok().unwrap();
    let (generation, action) = generation.step(Reply::Logits);
    assert_eq!(action, Ok(Action::Sample));
    assert_eq!(generation.position_offset(), 2);
    let (generation, action) = generation.step(Reply::Token(5));
    assert_eq!(action, Ok(Action::Forward { tokens: vec![5], position_offset: 2 }));
    assert_eq!(generation.phase(), Phase::Forwarding);
    assert_eq!(generation.forwarded(), 3);
    let (generation, action) = generation.step(Reply::Logits);
    assert_eq!(action, Ok(Action::Sample));
    assert_eq!(generation.position_offset(), 3);
    let (generation, action) = generation.step(Reply::Token(7));
    assert_eq!(action, Ok(Action::Finish));
    assert_eq!(generation.phase(), Phase::Done);
    assert_eq!(generation.forwarded(), 3);
    assert_eq!(generation.into_tokens(), vec![5]);
}

#[test]
fn the_budget_stops_the_generation_after_the_last_forward_call() {
    let (generation, _) = Generation::start(vec![9], 1, 10, 7).ok().unwrap();
    let (generation, _) = generation.step(Reply::Logits);
    let (generation, action) = generation.step(Reply::Token(2));
    assert_eq!(action, Ok(Action::Forward { tokens: vec![2], position_offset: 1 }));
    let (generation, action) = generation.step(Reply::Logits);
    assert_eq!(action, Ok(Action::Finish));
    assert_eq!(generation.forwarded(), 2);
    assert_eq!(generation.position_offset(), 2);
    assert_eq!(generation.into_tokens(), vec![2]);
}

#[test]
fn a_reply_out_of_turn_is_refused_and_changes_nothing() {
    let (generation, _) = Generation::start(vec![9, 8], 3, 10, 7).ok().unwrap();
    let (generation, action) = generation.step(Reply::Token(1));
    assert_eq!(action, Err(RuntimeError::OutOfTurn));
    assert_eq!(generation.phase(), Phase::Prefill);
    let (generation, _) = generation.step(Reply::Logits);
    let (generation, action) = generation.step(Reply::Logits);
    assert_eq!(action, Err(RuntimeError::OutOfTurn));
    assert_eq!(generation.phase(), Phase::Sampling);
    let (generation, _) = generation.step(Reply::Token(7));
    let (generation, action) = generation.step(Reply::Logits);
    assert_eq!(action, Err(RuntimeError::OutOfTurn));
    let (generation, action) = generation.step(Reply::Token(3));
    assert_eq!(action, Err(RuntimeError::OutOfTurn));
    assert_eq!(generation.phase(), Phase::Done);
}

#[test]
fn the_budget_never_runs_past_the_last_position() {
    let (generation, _) = Generation::start(vec![1, 2, 3], usize::MAX, 10, 7).ok().unwrap();
    let (generation, action) = generation.step(Reply::Logits);
    assert_eq!(action, Ok(Action::Sample));
    assert_eq!(generation.position_offset(), 3);
}

#[test]
fn the_end_token_is_the_first_known_name_or_the_vocabulary_size() {
    assert_eq!(resolve_eos(&vec![Some(11), Some(2), None], 50), 11);
    assert_eq!(resolve_eos(&vec![None, Some(2), Some(9)], 50), 2);
    assert_eq!(resolve_eos(&vec![None, None, Some(9)], 50), 9);
    assert_eq!(resolve_eos(&vec![None, None, None], 50), 50);
    assert_eq!(resolve_eos(&vec![], 151_936), 151_936);
    assert_eq!(resolve_eos(&vec![None], usize::MAX), u32::MAX);
}
