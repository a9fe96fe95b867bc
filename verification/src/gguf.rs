//! The engine for quantized models in one packed file.

use candle_core::{Device, Tensor};
use candle_transformers::models::quantized_llama::ModelWeights;
use tokenizers::Tokenizer;
use vstd::prelude::*;
use crate::backend::{decoded_text, quantized_forward, read_with, tensor_dims, tensor_shape};
use crate::decoding::{
    decode_tokens,
    encode_prompt,
    eos_of,
    is_generated_text,
    last_logits,
    probe_eos,
    sample_token_from_logits,
};
use crate::tensor_ops::{backend_fault, count_up, row_of, shape_fault};
use crate::error::{EngineError, InputError, LoadError, RuntimeError};
use crate::generation::{starts_prefill, Action, Generation, Phase, Reply};
use crate::sampler::SamplingParams;

verus! {

/// Where a quantized model comes from and how it generates.
#[derive(Debug, Clone)]
pub struct GGUFConfig {
    /// Path of the model file.
    pub model_path: String,
    /// Path of the tokenizer file, if there is one.
    pub tokenizer_path: Option<String>,
    /// Repository on the hub that the model was taken from, if any.
    pub hf_repo: Option<String>,
    /// Name of the model file in that repository.
    pub hf_filename: Option<String>,
    /// Largest number of tokens in a prompt.
    pub max_seq_len: usize,
    /// Temperature, in millionths.
    pub temperature: u32,
    /// Share of the probability mass to sample from, in millionths.
    pub top_p: u32,
    /// Number of most probable tokens to sample from; zero for all.
    pub top_k: usize,
}

impl GGUFConfig {
    /// The settings of the sampler.
    pub fn sampling(&self) -> (params: SamplingParams)
        ensures
            params == (SamplingParams {
                temperature: self.temperature,
                top_p: self.top_p,
                top_k: self.top_k,
            }),
    {
        SamplingParams { temperature: self.temperature, top_p: self.top_p, top_k: self.top_k }
    }
}

impl GGUFConfig {
    /// The configuration with which the application loads a model file:
    /// prompts of up to 2048 tokens, temperature 0.7, top-p 0.9, top-k 50.
    pub fn for_file(model_path: String, tokenizer_path: Option<String>) -> (config: GGUFConfig)
        ensures
            config.model_path == model_path,
            config.tokenizer_path == tokenizer_path,
            config.hf_repo is None,
            config.hf_filename is None,
            config.max_seq_len == 2048,
            config.temperature == 700_000,
            config.top_p == 900_000,
            config.top_k == 50,
    {
        GGUFConfig {
            model_path,
            tokenizer_path,
            hf_repo: None,
            hf_filename: None,
            max_seq_len: 2048,
            temperature: 700_000,
            top_p: 900_000,
            top_k: 50,
        }
    }

    /// The configuration for a model file that was fetched from a repository
    /// on the hub: the defaults, with the place it came from.
    pub fn for_hub(
        model_path: String,
        tokenizer_path: Option<String>,
        hf_repo: String,
        hf_filename: String,
    ) -> (config: GGUFConfig)
        ensures
            config.model_path == model_path,
            config.tokenizer_path == tokenizer_path,
            config.hf_repo == Some(hf_repo),
            config.hf_filename == Some(hf_filename),
            config.max_seq_len == 2048,
            config.temperature == 800_000,
            config.top_p == 900_000,
            config.top_k == 40,
    {
        GGUFConfig {
            model_path,
            tokenizer_path,
            hf_repo: Some(hf_repo),
            hf_filename: Some(hf_filename),
            max_seq_len: 2048,
            temperature: 800_000,
            top_p: 900_000,
            top_k: 40,
        }
    }
}

impl Default for GGUFConfig {
    /// A model file `model.gguf` without tokenizer; prompts of up to 2048
    /// tokens; temperature 0.8, top-p 0.9 and top-k 40.
    fn default() -> (config: GGUFConfig)
        ensures
            config.model_path@ == "model.gguf"@,
            config.tokenizer_path is None,
            config.hf_repo is None,
            config.hf_filename is None,
            config.max_seq_len == 2048,
            config.temperature == 800_000,
            config.top_p == 900_000,
            config.top_k == 40,
    {
        GGUFConfig {
            model_path: "model.gguf".to_owned(),
            tokenizer_path: None,
            hf_repo: None,
            hf_filename: None,
            max_seq_len: 2048,
            temperature: 800_000,
            top_p: 900_000,
            top_k: 40,
        }
    }
}

/// What the file of a quantized model says of its architecture.
#[derive(Debug, Clone, Copy, PartialEq, Eq, Structural)]
pub struct QuantizedCounts {
    /// Number of attention heads.
    pub heads: usize,
    /// Number of key/value heads.
    pub key_value_heads: usize,
    /// Width of the model.
    pub width: usize,
}

impl QuantizedCounts {
    /// Counts that the engine can run: there are heads of both kinds, and
    /// every head has a width.
    pub open spec fn sound(self) -> bool {
        self.heads > 0 && self.key_value_heads > 0 && self.width / self.heads > 0
    }

    pub fn is_sound(&self) -> (r: bool)
        ensures
            r == self.sound(),
    {
        self.heads > 0 && self.key_value_heads > 0 && self.width / self.heads > 0
    }
}

/// A loaded quantized model with its key/value caches, a tokenizer where one
/// was given, and the device it computes on.
pub struct GGUFInferenceEngine {
    device: Device,
    model: ModelWeights,
    counts: QuantizedCounts,
    tokenizer: Option<Tokenizer>,
    config: GGUFConfig,
}

impl GGUFInferenceEngine {
    /// The engine holds a model that was read with its counts, and the
    /// counts are ones that the engine can run. Every engine that
    /// `from_parts` hands out is such a one, and every call keeps it so.
    pub closed spec fn wf(&self) -> bool {
        read_with(self.model, self.counts.heads, self.counts.key_value_heads, self.counts.width)
            && self.counts.sound()
    }

    /// The counts that the engine was made with.
    pub closed spec fn spec_counts(&self) -> QuantizedCounts {
        self.counts
    }

    /// The engine has a tokenizer.
    pub closed spec fn has_tokenizer(&self) -> bool {
        self.tokenizer is Some
    }

    /// The largest number of prompt tokens that the engine accepts.
    pub closed spec fn max_seq_len(&self) -> usize {
        self.config.max_seq_len
    }

    /// The device that the engine was made for.
    pub closed spec fn spec_device(&self) -> Device {
        self.device
    }

    /// The tokenizer that the engine was made with, if any.
    pub closed spec fn spec_tokenizer(&self) -> Option<Tokenizer> {
        self.tokenizer
    }

    /// The engine has a tokenizer exactly if it was made with one.
    pub proof fn lemma_has_its_tokenizer(&self)
        ensures
            self.has_tokenizer() == self.spec_tokenizer() is Some,
    {
    }

    /// An engine on weights that were read from a model file. `counts` are
    /// the counts that the file names, with which the model was read. Counts
    /// that the engine cannot run are refused.
    pub fn from_parts(
        config: GGUFConfig,
        model: ModelWeights,
        counts: QuantizedCounts,
        tokenizer: Option<Tokenizer>,
        device: Device,
    ) -> (r: Result<GGUFInferenceEngine, EngineError>)
        requires
            read_with(model, counts.heads, counts.key_value_heads, counts.width),
        ensures
            counts.sound() ==> r is Ok,
            !counts.sound() ==> r matches Err(
                EngineError::Load(LoadError::ArchitectureMismatch(_)),
            ),
            r matches Ok(engine) ==> engine.wf() && engine.has_tokenizer() == tokenizer is Some
                && engine.max_seq_len() == config.max_seq_len && engine.spec_device() == device
                && engine.spec_tokenizer() == tokenizer && engine.spec_counts() == counts,
    {
        if !counts.is_sound() {
            return Err(
                EngineError::Load(
                    LoadError::ArchitectureMismatch("heads without number or width".to_owned()),
                ),
            );
        }
        Ok(GGUFInferenceEngine { device, model, counts, tokenizer, config })
    }

    /// One forward call: `input_ids` holds, for every item of the batch, one
    /// row of token ids, the first of which stands at position `index_pos`.
    /// The result holds, for every item of the batch, the logits of the last
    /// position. Ids in any other shape, and an empty row, are refused before
    /// the model is called, and so is a result in any other shape.
    pub fn forward(&mut self, input_ids: &Tensor, index_pos: usize) -> (r: Result<
        Tensor,
        EngineError,
    >)
        requires
            old(self).wf(),
        ensures
            final(self).wf(),
            final(self).spec_counts() == old(self).spec_counts(),
            final(self).has_tokenizer() == old(self).has_tokenizer(),
            final(self).max_seq_len() == old(self).max_seq_len(),
            final(self).spec_device() == old(self).spec_device(),
            final(self).spec_tokenizer() == old(self).spec_tokenizer(),
            tensor_shape(*input_ids).len() != 2 || tensor_shape(*input_ids)[1] == 0 ==> r is Err,
            r matches Ok(logits) ==> tensor_shape(logits).len() == 2 && tensor_shape(logits)[0]
                == tensor_shape(*input_ids)[0],
            r matches Err(e) ==> e.is_backend_fault(),
    {
        let dims = tensor_dims(input_ids);
        if dims.len() != 2 || dims[1] == 0 {
            return Err(shape_fault());
        }
        let logits = match quantized_forward(
            &mut self.model,
            self.counts.heads,
            self.counts.key_value_heads,
            self.counts.width,
            input_ids,
            index_pos,
        ) {
            Ok(logits) => logits,
            Err(e) => {
                return Err(backend_fault(&e));
            },
        };
        let rows = tensor_dims(&logits);
        if rows.len() != 2 || rows[0] != dims[0] {
            return Err(shape_fault());
        }
        Ok(logits)
    }

    /// Generates up to `max_new_tokens` tokens after the prompt and returns
    /// them as text. The prompt is refused before any forward call where the
    /// engine has no tokenizer, where the prompt cannot be encoded, where it
    /// encodes to nothing, and where it has more tokens than the engine
    /// accepts.
    pub fn generate(&mut self, prompt: &str, max_new_tokens: usize) -> (r: Result<
        String,
        EngineError,
    >)
        requires
            old(self).wf(),
        ensures
            final(self).wf(),
            final(self).spec_counts() == old(self).spec_counts(),
            final(self).has_tokenizer() == old(self).has_tokenizer(),
            final(self).max_seq_len() == old(self).max_seq_len(),
            final(self).spec_device() == old(self).spec_device(),
            final(self).spec_tokenizer() == old(self).spec_tokenizer(),
            !old(self).has_tokenizer() ==> r == Err::<String, EngineError>(
                EngineError::Runtime(RuntimeError::TokenizerMissing),
            ),
            r matches Ok(text) ==> old(self).spec_tokenizer() matches Some(tokenizer)
                && is_generated_text(tokenizer, true, max_new_tokens as nat, text@),
            r matches Err(e) ==> e.refuses_only_above(old(self).max_seq_len()),
            r matches Err(e) ==> if old(self).has_tokenizer() {
                e.is_generation_fault()
            } else {
                e == EngineError::Runtime(RuntimeError::TokenizerMissing)
            },
            r matches Err(EngineError::Input(_)) ==> *final(self) == *old(self),
    {
        let (ids, eos) = match &self.tokenizer {
            None => {
                return Err(EngineError::Runtime(RuntimeError::TokenizerMissing));
            },
            Some(tokenizer) => {
                let ids = match encode_prompt(tokenizer, prompt) {
                    Ok(ids) => ids,
                    Err(e) => {
                        return Err(EngineError::Input(e));
                    },
                };
                (ids, probe_eos(tokenizer, true))
            },
        };
        let params = self.config.sampling();
        let (mut generation, mut action) = match Generation::start(
            ids,
            max_new_tokens,
            self.config.max_seq_len,
            eos,
        ) {
            Ok(started) => started,
            Err(e) => {
                return Err(EngineError::Input(e));
            },
        };
        let mut logits: Option<Tensor> = None;
        loop
            invariant
                generation@.consistent(),
                generation@.phase == Phase::Prefill ==> starts_prefill(action),
                generation@.phase != Phase::Prefill ==> generation@.asks(action),
                self.has_tokenizer() == old(self).has_tokenizer(),
                self.max_seq_len() == old(self).max_seq_len(),
                self.spec_device() == old(self).spec_device(),
                self.spec_tokenizer() == old(self).spec_tokenizer(),
                self.wf(),
                self.spec_counts() == old(self).spec_counts(),
                self.has_tokenizer(),
                generation@.budget <= max_new_tokens,
                generation@.eos == eos,
                self.spec_tokenizer() matches Some(tokenizer) && eos == eos_of(tokenizer, true),
                generation@.phase != Phase::Prefill ==> logits is Some,
            decreases generation@.steps_left(),
        {
            let reply = match action {
                Action::Finish => {
                    break ;
                },
                Action::Sample => {
                    let token = match &logits {
                        Some(row) => sample_token_from_logits(row, &params)?,
                        None => {
                            return Err(EngineError::Runtime(RuntimeError::OutOfTurn));
                        },
                    };
                    Reply::Token(token)
                },
                Action::Forward { tokens, position_offset } => {
                    let input = row_of(&tokens, &self.device)?;
                    let output = match quantized_forward(
                        &mut self.model,
                        self.counts.heads,
                        self.counts.key_value_heads,
                        self.counts.width,
                        &input,
                        position_offset,
                    ) {
                        Ok(output) => output,
                        Err(e) => {
                            return Err(backend_fault(&e));
                        },
                    };
                    logits = Some(last_logits(output)?);
                    Reply::Logits
                },
            };
            proof {
                crate::generation::lemma_step_makes_progress(generation@, reply);
            }
            let (next, asked) = generation.step(reply);
            generation = next;
            action = match asked {
                Ok(action) => action,
                Err(e) => {
                    return Err(EngineError::Runtime(e));
                },
            };
        }
        let tokens = generation.into_tokens();
        match &self.tokenizer {
            None => Err(EngineError::Runtime(RuntimeError::TokenizerMissing)),
            Some(tokenizer) => match decode_tokens(tokenizer, &tokens) {
                Ok(text) => {
                    assert(decoded_text(*tokenizer, tokens@, true) == Some(text@));
                    Ok(text)
                },
                Err(e) => Err(EngineError::Runtime(e)),
            },
        }
    }

    /// The device that the engine computes on.
    pub fn device(&self) -> (device: &Device)
        ensures
            *device == self.spec_device(),
    {
        &self.device
    }

    pub fn config(&self) -> (config: &GGUFConfig)
        ensures
            config.max_seq_len == self.max_seq_len(),
    {
        &self.config
    }

    /// Tries one forward call on the token ids `0..seq_len`, at position 0,
    /// to see that the model runs.
    pub fn test_forward(&mut self, seq_len: usize) -> (r: Result<(), EngineError>)
        requires
            old(self).wf(),
        ensures
            final(self).wf(),
            final(self).spec_counts() == old(self).spec_counts(),
            final(self).has_tokenizer() == old(self).has_tokenizer(),
            final(self).max_seq_len() == old(self).max_seq_len(),
            final(self).spec_device() == old(self).spec_device(),
            final(self).spec_tokenizer() == old(self).spec_tokenizer(),
            seq_len == 0 || seq_len > u32::MAX ==> r is Err,
            r matches Err(e) ==> e.is_backend_fault(),
    {
        if seq_len == 0 || seq_len > u32::MAX as usize {
            return Err(shape_fault());
        }
        let input = row_of(&count_up(seq_len as u32), &self.device)?;
        match quantized_forward(
            &mut self.model,
            self.counts.heads,
            self.counts.key_value_heads,
            self.counts.width,
            &input,
            0,
        ) {
            Ok(_) => Ok(()),
            Err(e) => Err(backend_fault(&e)),
        }
    }
}

} // verus!
