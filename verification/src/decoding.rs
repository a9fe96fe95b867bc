//! From the logits of a forward call to the next token.

use candle_core::Tensor;
use tokenizers::Tokenizer;
use vstd::prelude::*;
use crate::backend::{
    countable,
    decoded_text,
    device_of,
    on_cpu,
    narrowed,
    reshaped,
    entry_count,
    dtype_of,
    is_float,
    softmax_gives,
    tensor_entries,
    tensor_dims,
    tensor_shape,
    token_id_of,
    tokenizer_decode,
    tokenizer_encode,
    tokenizer_token_id,
    tokenizer_vocab_size,
    uniform_below,
    vocab_size_of,
};
use crate::error::{EngineError, InputError, RuntimeError};
use crate::generation::{first_found, resolve_eos, sentinel};
use crate::sampler::{
    argmax_first,
    choose_token,
    chosen_token,
    filter_candidates,
    total_mass,
    Candidate,
    SamplingParams,
    UNIT,
};
use crate::tensor_ops::{
    divided,
    holds_floats,
    over,
    relative,
    times,
    type_fault,
    flattened,
    integers,
    narrow,
    relative_to_largest,
    scaled,
    shape_fault,
    softmax,
};

verus! {

/// How the logits of the last position are taken out of a model's output.
#[derive(Debug, Clone, Copy, PartialEq, Eq, Structural)]
pub enum Extraction {
    /// The output holds the logits of one position only.
    Whole,
    /// The output holds one row of logits for each position; the row at this
    /// position is the last.
    Position(usize),
}

/// The way to the last position's logits in an output of the given shape:
/// one row of logits, a batch of one such row, or a batch of one sequence of
/// rows. Any other shape, and any with an empty dimension, holds none.
pub open spec fn extraction_for(shape: Seq<usize>) -> Option<Extraction> {
    if shape.len() == 1 && shape[0] > 0 {
        Some(Extraction::Whole)
    } else if shape.len() == 2 && shape[0] == 1 && shape[1] > 0 {
        Some(Extraction::Whole)
    } else if shape.len() == 3 && shape[0] == 1 && shape[1] > 0 && shape[2] > 0 {
        Some(Extraction::Position((shape[1] - 1) as usize))
    } else {
        None
    }
}

pub fn plan_extraction(dims: &Vec<usize>) -> (r: Option<Extraction>)
    ensures
        r == extraction_for(dims@),
{
    if dims.len() == 1 && dims[0] > 0 {
        Some(Extraction::Whole)
    } else if dims.len() == 2 && dims[0] == 1 && dims[1] > 0 {
        Some(Extraction::Whole)
    } else if dims.len() == 3 && dims[0] == 1 && dims[1] > 0 && dims[2] > 0 {
        Some(Extraction::Position(dims[1] - 1))
    } else {
        None
    }
}

/// The part of a model's output that holds the logits of the last position:
/// the output itself where it holds one position only, else what it holds
/// at the last position.
pub open spec fn last_part_of(output: Tensor) -> Tensor {
    match extraction_for(tensor_shape(output)) {
        Some(Extraction::Position(last)) => narrowed(output, 1, last, 1),
        _ => output,
    }
}

/// The logits of the last position of a model's output, as one row.
pub open spec fn last_row_of(output: Tensor) -> Tensor {
    reshaped(last_part_of(output), seq![tensor_shape(output).last()])
}

/// The logits of the last position of a model's output, as one row: as
/// many as the last dimension of the output holds.
pub fn last_logits(output: Tensor) -> (r: Result<Tensor, EngineError>)
    ensures
        extraction_for(tensor_shape(output)) is None ==> r is Err,
        r matches Ok(row) ==> tensor_shape(output).len() > 0 && tensor_shape(row) == seq![
            tensor_shape(output).last(),
        ] && row == last_row_of(output) && tensor_entries(row) == tensor_entries(
            last_part_of(output),
        ) && dtype_of(row) == dtype_of(output) && device_of(row) == device_of(output),
        extraction_for(tensor_shape(output)) is Some && on_cpu(device_of(output)) && countable(
            tensor_shape(output),
        ) ==> r is Ok,
        r matches Err(e) ==> e.is_backend_fault(),
{
    let dims = tensor_dims(&output);
    let part = match plan_extraction(&dims) {
        None => {
            return Err(shape_fault());
        },
        Some(Extraction::Whole) => output,
        Some(Extraction::Position(last)) => {
            let part = narrow(&output, 1, last, 1)?;
            proof {
                crate::tensor_ops::lemma_three_counts(1, 1, dims@[2]);
                assert(tensor_shape(part) =~= seq![1usize, 1usize, dims@[2]]);
            }
            part
        },
    };
    let row = flattened(&part)?;
    proof {
        reveal_with_fuel(entry_count, 4);
        let shape = tensor_shape(part);
        assert(entry_count(shape) == dims@.last()) by {
            if shape.len() == 1 {
                assert(shape.drop_last() =~= Seq::<usize>::empty());
            } else if shape.len() == 2 {
                assert(shape.drop_last().drop_last() =~= Seq::<usize>::empty());
            } else {
                assert(shape.drop_last().drop_last().drop_last() =~= Seq::<usize>::empty());
            }
        }
        assert(tensor_shape(row) =~= seq![dims@.last()]);
    }
    Ok(row)
}

/// The logits of a row at a temperature: divided by the temperature, unless
/// that is zero or one.
pub open spec fn cooled(row: Tensor, params: SamplingParams) -> Tensor {
    if params.temperature > 0 && params.temperature != UNIT {
        over(times(row, UNIT), params.temperature)
    } else {
        row
    }
}

/// The masses of probabilities: every probability in units of 1/`u32::MAX`
/// of the largest of them, cut down to a whole number.
pub open spec fn masses_from(probs: Tensor) -> Seq<u32> {
    tensor_entries(times(relative(probs), u32::MAX))
}

/// `masses` are masses of a row of logits at the temperature of `params`:
/// the masses of what the softmax gave for the logits at that temperature.
pub open spec fn is_masses_of(masses: Seq<u32>, row: Tensor, params: SamplingParams) -> bool {
    exists|probs: Tensor|
        #![trigger softmax_gives(cooled(row, params), probs)]
        softmax_gives(cooled(row, params), probs) && masses == masses_from(probs)
}

/// The probability masses that a row of logits gives at the temperature of
/// `params`: the logits are divided by the temperature, unless that is zero
/// or one, and turned into probabilities, which come out in units of
/// 1/`u32::MAX` of the largest of them. So the most probable token has the
/// mass `u32::MAX`, and a token that is less probable by the smallest step
/// of the backend's numbers has less. Logits that are no row of floats are
/// refused.
pub fn probability_masses(row: &Tensor, params: &SamplingParams) -> (r: Result<
    Vec<u32>,
    EngineError,
>)
    ensures
        !is_float(dtype_of(*row)) || tensor_shape(*row).len() != 1 || tensor_shape(*row)[0] == 0
            ==> r is Err,
        r matches Ok(masses) ==> tensor_shape(*row) == seq![masses.len()] && 0 < masses.len()
            <= u32::MAX && is_masses_of(masses@, *row, *params),
        r matches Err(e) ==> e.is_backend_fault(),
{
    let dims = tensor_dims(row);
    if dims.len() != 1 || dims[0] == 0 || dims[0] > u32::MAX as usize {
        return Err(shape_fault());
    }
    if !holds_floats(row) {
        return Err(type_fault());
    }
    let probs = if params.temperature > 0 && params.temperature != UNIT {
        let raised = scaled(row, UNIT)?;
        let cooled = divided(&raised, params.temperature)?;
        softmax(&cooled)?
    } else {
        softmax(row)?
    };
    assert(softmax_gives(cooled(*row, *params), probs));
    let parts = relative_to_largest(&probs)?;
    let units = scaled(&parts, u32::MAX)?;
    let masses = integers(&units)?;
    assert(masses@ == masses_from(probs));
    Ok(masses)
}

/// `token` is a token that the sampler gives for a distribution: what is
/// chosen, for some number drawn, from what the filters of `params` leave of
/// the distribution; at temperature zero the most probable token, the lowest
/// among equals.
pub open spec fn is_drawn(token: u32, masses: Seq<u32>, params: SamplingParams) -> bool {
    &&& exists|kept: Seq<Candidate>, draw: nat|
        #![trigger chosen_token(kept, params.is_greedy(), draw)]
        params.keeps(kept, masses) && token == chosen_token(kept, params.is_greedy(), draw)
    &&& params.is_greedy() ==> token == argmax_first(masses)
}

/// `token` is a token that the sampler gives for a row of logits: one drawn
/// from masses of the row.
pub open spec fn is_sampled(token: u32, row: Tensor, params: SamplingParams) -> bool {
    exists|masses: Seq<u32>|
        #![trigger is_masses_of(masses, row, params)]
        is_masses_of(masses, row, params) && masses.len() == tensor_shape(row)[0] && is_drawn(
            token,
            masses,
            params,
        )
}

/// The next token for a distribution, with a number drawn where the
/// temperature asks for one: the filters of `params` are applied, and of what
/// they leave the most probable token is taken at temperature zero, else one
/// is drawn in proportion to its mass. Where nothing that is left has any
/// mass, the last candidate is taken.
pub fn draw_token(masses: &Vec<u32>, params: &SamplingParams) -> (token: u32)
    requires
        masses.len() <= u32::MAX,
    ensures
        exists|kept: Seq<Candidate>, draw: nat|
            #![trigger chosen_token(kept, params.is_greedy(), draw)]
            params.keeps(kept, masses@) && token == chosen_token(kept, params.is_greedy(), draw),
        params.is_greedy() ==> token == crate::sampler::argmax_first(masses@),
        masses.len() > 0 ==> token < masses.len(),
        is_drawn(token, masses@, *params),
{
    let kept = filter_candidates(masses, params);
    let greedy = params.greedy();
    let total = total_mass(&kept);
    let draw = if greedy || total == 0 {
        0
    } else {
        uniform_below(total)
    };
    let token = choose_token(&kept, greedy, draw);
    proof {
        if params.is_greedy() {
            crate::sampler::lemma_greedy_is_argmax(*params, kept@, masses@, draw as nat);
        }
        if masses.len() > 0 {
            crate::sampler::lemma_chosen_is_in_vocabulary(
                *params,
                kept@,
                masses@,
                greedy,
                draw as nat,
            );
        }
    }
    token
}

/// The next token for a row of logits: the logits are turned into masses at
/// the temperature of `params`, and a token is drawn from the masses. The
/// token lies in the vocabulary that the row spans.
pub fn sample_token_from_logits(row: &Tensor, params: &SamplingParams) -> (r: Result<u32, EngineError>)
    ensures
        !is_float(dtype_of(*row)) || tensor_shape(*row).len() != 1 || tensor_shape(*row)[0] == 0
            ==> r is Err,
        r matches Ok(token) ==> tensor_shape(*row).len() == 1 && token < tensor_shape(*row)[0]
            && is_sampled(token, *row, *params),
        r matches Err(e) ==> e.is_backend_fault(),
{
    let masses = probability_masses(row, params)?;
    let token = draw_token(&masses, params);
    assert(is_masses_of(masses@, *row, *params) && is_drawn(token, masses@, *params));
    Ok(token)
}

/// The tokens of a prompt. A text that the tokenizer cannot encode is
/// refused, and so is one that has no tokens.
pub fn encode_prompt(tokenizer: &Tokenizer, prompt: &str) -> (r: Result<Vec<u32>, InputError>)
    ensures
        r matches Ok(ids) ==> ids.len() > 0,
        r matches Err(e) ==> e is Encoding || e is EmptyPrompt,
{
    let ids = match tokenizer_encode(tokenizer, prompt, true) {
        Ok(ids) => ids,
        Err(text) => {
            return Err(InputError::Encoding(text));
        },
    };
    if ids.len() == 0 {
        return Err(InputError::EmptyPrompt);
    }
    Ok(ids)
}

/// The text of generated tokens, without the tokens that only mark
/// something: what the tokenizer decodes them to. Tokens that it cannot
/// decode are a failure of decoding.
pub fn decode_tokens(tokenizer: &Tokenizer, tokens: &Vec<u32>) -> (r: Result<String, RuntimeError>)
    ensures
        r matches Ok(text) ==> decoded_text(*tokenizer, tokens@, true) == Some(text@),
        r is Err <==> decoded_text(*tokenizer, tokens@, true) is None,
        r matches Err(e) ==> e is Decoding,
{
    match tokenizer_decode(tokenizer, tokens, true) {
        Ok(text) => Ok(text),
        Err(text) => Err(RuntimeError::Decoding(text)),
    }
}

/// What a tokenizer holds of the names of the end token, in the order in
/// which they are tried: `<|endoftext|>` and, where `all_names` is set,
/// `</s>` and `<|im_end|>`.
pub open spec fn end_tokens_of(tokenizer: Tokenizer, all_names: bool) -> Seq<Option<u32>> {
    if all_names {
        seq![
            token_id_of(tokenizer, "<|endoftext|>"@),
            token_id_of(tokenizer, "</s>"@),
            token_id_of(tokenizer, "<|im_end|>"@),
        ]
    } else {
        seq![token_id_of(tokenizer, "<|endoftext|>"@)]
    }
}

/// The end token of a tokenizer: the first that its vocabulary holds of the
/// names of the end token; where it holds none, the size of its vocabulary
/// with the added tokens, which no token of the vocabulary equals.
pub open spec fn eos_of(tokenizer: Tokenizer, all_names: bool) -> u32 {
    match first_found(end_tokens_of(tokenizer, all_names)) {
        Some(token) => token,
        None => sentinel(vocab_size_of(tokenizer, true) as nat),
    }
}

/// `text` is what a generation of at most `budget` tokens gives with a
/// tokenizer: the text that the tokenizer decodes the generated tokens to,
/// of which there are at most `budget`, none of them the end token.
pub open spec fn is_generated_text(
    tokenizer: Tokenizer,
    all_names: bool,
    budget: nat,
    text: Seq<char>,
) -> bool {
    exists|tokens: Seq<u32>|
        #![trigger decoded_text(tokenizer, tokens, true)]
        tokens.len() <= budget && (forall|i: int|
            0 <= i < tokens.len() ==> tokens[i] != eos_of(tokenizer, all_names)) && decoded_text(
            tokenizer,
            tokens,
            true,
        ) == Some(text)
}

/// The end token of a tokenizer: the first that its vocabulary holds of
/// `<|endoftext|>` and, where `all_names` is set, `</s>` and `<|im_end|>`;
/// the size of the vocabulary where it holds none.
pub fn probe_eos(tokenizer: &Tokenizer, all_names: bool) -> (eos: u32)
    ensures
        eos == eos_of(*tokenizer, all_names),
{
    let mut found: Vec<Option<u32>> = Vec::new();
    found.push(tokenizer_token_id(tokenizer, "<|endoftext|>"));
    if all_names {
        found.push(tokenizer_token_id(tokenizer, "</s>"));
        found.push(tokenizer_token_id(tokenizer, "<|im_end|>"));
    }
    assert(found@ =~= end_tokens_of(*tokenizer, all_names));
    resolve_eos(&found, tokenizer_vocab_size(tokenizer, true))
}

} // verus!
