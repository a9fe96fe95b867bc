//! The engine for dense models in full precision.

use candle_core::{Device, Tensor};
use image::DynamicImage;
use candle_transformers::models::llama::{Config, Llama};
use tokenizers::Tokenizer;
use vstd::prelude::*;
use crate::backend::{
    attention_heads,
    built_for,
    cache_for,
    config_attention_heads,
    config_fused_attention,
    config_hidden_size,
    config_intermediate_size,
    config_key_value_heads,
    config_layers,
    config_ties_embeddings,
    config_vocab_size,
    dense_cache,
    dense_forward,
    dense_model,
    device_of,
    device_same,
    dtype_of,
    error_text,
    float_entries,
    head_fits,
    hidden_size_of,
    intermediate_size_of,
    on_cpu,
    is_float,
    key_value_heads,
    keys_of,
    layer_fits,
    layer_name,
    layers_of,
    queries_of,
    same_place,
    tensor_dims,
    tensor_shape,
    wants_fused_attention,
    weight_fits,
};
use crate::tensor_ops::{agree_upto, holds_floats};
use crate::text::{decimal, str_eq};
use vstd::string::StringExecFns;
use crate::backend::decoded_text;
use crate::decoding::{
    decode_tokens,
    encode_prompt,
    eos_of,
    is_generated_text,
    is_sampled,
    last_logits,
    probe_eos,
    sample_token_from_logits,
};
use crate::tensor_ops::{backend_fault, row_of};
use crate::error::{EngineError, InputError, LoadError, RuntimeError};
use crate::generation::{starts_prefill, Action, Generation, Phase, Reply};
use crate::sampler::SamplingParams;
use crate::vision::{ImagePreprocessConfig, ImagePreprocessor};

verus! {

/// Where a dense model comes from and how it generates.
#[derive(Debug, Clone)]
pub struct InferenceConfig {
    /// Path of the weight file.
    pub model_path: String,
    /// Path of the tokenizer file.
    pub tokenizer_path: String,
    /// The architecture of the model, where it is known beforehand.
    pub model_config: Option<Config>,
    /// Largest number of tokens in a prompt.
    pub max_seq_len: usize,
    /// Temperature, in millionths.
    pub temperature: u32,
    /// Share of the probability mass to sample from, in millionths.
    pub top_p: u32,
    /// Number of most probable tokens to sample from; zero for all.
    pub top_k: usize,
    /// How images are prepared, for a model that takes images.
    pub image_preprocess_config: Option<ImagePreprocessConfig>,
}

impl InferenceConfig {
    /// The settings of the sampler.
    pub fn sampling(&self) -> (params: SamplingParams)
        ensures
            params == (SamplingParams {
                temperature: self.temperature,
                top_p: self.top_p,
                top_k: self.top_k,
            }),
    {
        SamplingParams { temperature: self.temperature, top_p: self.top_p, top_k: self.top_k }
    }

    /// The default configuration for a weight file and a tokenizer file.
    pub fn for_paths(model_path: String, tokenizer_path: String) -> (config: InferenceConfig)
        ensures
            config.model_path == model_path,
            config.tokenizer_path == tokenizer_path,
            config.model_config is None,
            config.max_seq_len == 2048,
            config.temperature == 800_000,
            config.top_p == 900_000,
            config.top_k == 40,
            config.image_preprocess_config is None,
    {
        InferenceConfig {
            model_path,
            tokenizer_path,
            model_config: None,
            max_seq_len: 2048,
            temperature: 800_000,
            top_p: 900_000,
            top_k: 40,
            image_preprocess_config: None,
        }
    }

    /// The configuration with which the application loads a vision-language
    /// model: prompts of up to 32768 tokens, temperature 0.7, top-p 0.9,
    /// top-k 50, and images cut to squares of 448 pixels.
    pub fn for_vision_language(model_path: String, tokenizer_path: String) -> (config:
        InferenceConfig)
        ensures
            config.model_path == model_path,
            config.tokenizer_path == tokenizer_path,
            config.model_config is None,
            config.max_seq_len == 32768,
            config.temperature == 700_000,
            config.top_p == 900_000,
            config.top_k == 50,
            config.image_preprocess_config is Some,
            config.image_preprocess_config.unwrap().image_size == 448,
    {
        InferenceConfig {
            model_path,
            tokenizer_path,
            model_config: None,
            max_seq_len: 32768,
            temperature: 700_000,
            top_p: 900_000,
            top_k: 50,
            image_preprocess_config: Some(ImagePreprocessConfig::default()),
        }
    }
}

impl Default for InferenceConfig {
    /// The files `model.safetensors` and `tokenizer.json`; prompts of up to
    /// 2048 tokens; temperature 0.8, top-p 0.9 and top-k 40; no images.
    fn default() -> (config: InferenceConfig)
        ensures
            config.model_path@ == "model.safetensors"@,
            config.tokenizer_path@ == "tokenizer.json"@,
            config.model_config is None,
            config.max_seq_len == 2048,
            config.temperature == 800_000,
            config.top_p == 900_000,
            config.top_k == 40,
            config.image_preprocess_config is None,
    {
        InferenceConfig::for_paths("model.safetensors".to_owned(), "tokenizer.json".to_owned())
    }
}

/// An architecture that the engine can run: it has attention heads and
/// key/value heads, every head has a width, and it asks for no fused
/// attention kernel.
pub open spec fn sound_architecture(model_config: Config) -> bool {
    attention_heads(model_config) > 0 && key_value_heads(model_config) > 0
        && !wants_fused_attention(model_config) && hidden_size_of(model_config)
        / attention_heads(model_config) > 0
}

/// A loaded dense model with its tokenizer and the device it computes on.
pub struct InferenceEngine {
    device: Device,
    model: Llama,
    tokenizer: Tokenizer,
    config: InferenceConfig,
    model_config: Config,
    image_preprocessor: Option<ImagePreprocessor>,
}

/// The name of a tensor of a layer of a dense model.
pub fn layer_tensor_name(layer: usize, part: &str) -> (name: String)
    ensures
        name@ == layer_name(layer as nat, part@),
{
    let mut name = "model.layers.".to_owned();
    name.append(decimal(layer).as_str());
    name.append(part);
    name
}

/// Whether the weights hold a tensor under a name, and whatever they hold
/// under the name has the given shape, holds floats and lies on the device.
pub fn weight_is_fit(
    weights: &Vec<(String, Tensor)>,
    name: &str,
    shape: &Vec<usize>,
    device: &Device,
) -> (r: bool)
    ensures
        r == weight_fits(weights@, name@, shape@, *device),
{
    let mut found = false;
    let mut i: usize = 0;
    while i < weights.len()
        invariant
            i <= weights.len(),
            found == (exists|j: int| 0 <= j < i && (#[trigger] weights@[j]).0@ == name@),
            forall|j: int|
                0 <= j < i && (#[trigger] weights@[j]).0@ == name@ ==> tensor_shape(weights@[j].1)
                    == shape@ && is_float(dtype_of(weights@[j].1)) && same_place(
                    device_of(weights@[j].1),
                    *device,
                ),
        decreases weights.len() - i,
    {
        if str_eq(weights[i].0.as_str(), name) {
            let tensor = &weights[i].1;
            let dims = tensor_dims(tensor);
            let place = crate::backend::tensor_device(tensor);
            let same = dims.len() == shape.len() && agree_upto(&dims, shape, shape.len());
            proof {
                if same {
                    assert(dims@.take(shape.len() as int) =~= dims@);
                    assert(shape@.take(shape.len() as int) =~= shape@);
                } else if dims@ == shape@ {
                    assert(dims@.take(shape.len() as int) =~= shape@.take(shape.len() as int));
                }
            }
            if !same || !holds_floats(tensor) || !device_same(place, device) {
                return false;
            }
            found = true;
        }
        i = i + 1;
    }
    found
}

/// A shape of one size.
fn row_shape(a: usize) -> (r: Vec<usize>)
    ensures
        r@ == seq![a],
{
    let mut shape: Vec<usize> = Vec::new();
    shape.push(a);
    shape
}

/// A shape of two sizes.
fn matrix_shape(a: usize, b: usize) -> (r: Vec<usize>)
    ensures
        r@ == seq![a, b],
{
    let mut shape: Vec<usize> = Vec::new();
    shape.push(a);
    shape.push(b);
    shape
}

/// Whether the weights hold the nine tensors of a layer of a dense model,
/// each in its shape.
pub fn layer_is_fit(
    weights: &Vec<(String, Tensor)>,
    device: &Device,
    layer: usize,
    hidden: usize,
    inner: usize,
    queries: usize,
    keys: usize,
) -> (r: bool)
    ensures
        r == layer_fits(weights@, *device, layer as nat, hidden, inner, queries, keys),
{
    weight_is_fit(
        weights,
        layer_tensor_name(layer, ".self_attn.q_proj.weight").as_str(),
        &matrix_shape(queries, hidden),
        device,
    ) && weight_is_fit(
        weights,
        layer_tensor_name(layer, ".self_attn.k_proj.weight").as_str(),
        &matrix_shape(keys, hidden),
        device,
    ) && weight_is_fit(
        weights,
        layer_tensor_name(layer, ".self_attn.v_proj.weight").as_str(),
        &matrix_shape(keys, hidden),
        device,
    ) && weight_is_fit(
        weights,
        layer_tensor_name(layer, ".self_attn.o_proj.weight").as_str(),
        &matrix_shape(hidden, queries),
        device,
    ) && weight_is_fit(
        weights,
        layer_tensor_name(layer, ".mlp.gate_proj.weight").as_str(),
        &matrix_shape(inner, hidden),
        device,
    ) && weight_is_fit(
        weights,
        layer_tensor_name(layer, ".mlp.up_proj.weight").as_str(),
        &matrix_shape(inner, hidden),
        device,
    ) && weight_is_fit(
        weights,
        layer_tensor_name(layer, ".mlp.down_proj.weight").as_str(),
        &matrix_shape(hidden, inner),
        device,
    ) && weight_is_fit(
        weights,
        layer_tensor_name(layer, ".input_layernorm.weight").as_str(),
        &row_shape(hidden),
        device,
    ) && weight_is_fit(
        weights,
        layer_tensor_name(layer, ".post_attention_layernorm.weight").as_str(),
        &row_shape(hidden),
        device,
    )
}

/// The weights hold the tensors of every layer that the configuration
/// names, each in its shape, and the widths of the configuration fit the
/// machine word.
pub open spec fn layers_fit(weights: Seq<(String, Tensor)>, config: Config, device: Device) -> bool {
    &&& attention_heads(config) > 0
    &&& keys_of(config) <= usize::MAX
    &&& forall|layer: nat|
        layer < layers_of(config) ==> #[trigger] layer_fits(
            weights,
            device,
            layer,
            hidden_size_of(config),
            intermediate_size_of(config),
            queries_of(config) as usize,
            keys_of(config) as usize,
        )
}

/// Whether the weights hold the tensors of every layer that the
/// configuration names.
pub fn layers_are_fit(weights: &Vec<(String, Tensor)>, config: &Config, device: &Device) -> (r:
    bool)
    ensures
        r == layers_fit(weights@, *config, *device),
{
    let heads = config_attention_heads(config);
    if heads == 0 {
        return false;
    }
    let hidden = config_hidden_size(config);
    let inner = config_intermediate_size(config);
    let head = hidden / heads;
    assert(head * heads <= hidden) by (nonlinear_arith)
        requires
            head == hidden / heads,
            heads > 0,
    ;
    let queries = head * heads;
    let keys = match head.checked_mul(config_key_value_heads(config)) {
        Some(keys) => keys,
        None => {
            return false;
        },
    };
    let layers = config_layers(config);
    let mut layer: usize = 0;
    while layer < layers
        invariant
            layer <= layers,
            layers == layers_of(*config),
            hidden == hidden_size_of(*config),
            inner == intermediate_size_of(*config),
            queries == queries_of(*config),
            keys == keys_of(*config),
            forall|l: nat|
                l < layer ==> #[trigger] layer_fits(
                    weights@,
                    *device,
                    l,
                    hidden,
                    inner,
                    queries,
                    keys,
                ),
        decreases layers - layer,
    {
        if !layer_is_fit(weights, device, layer, hidden, inner, queries, keys) {
            assert(!layer_fits(
                weights@,
                *device,
                layer as nat,
                hidden_size_of(*config),
                intermediate_size_of(*config),
                queries_of(*config) as usize,
                keys_of(*config) as usize,
            ));
            return false;
        }
        layer = layer + 1;
    }
    true
}

/// Whether the weights hold what a dense model has beside its layers, each
/// tensor in its shape.
pub fn head_is_fit(weights: &Vec<(String, Tensor)>, config: &Config, device: &Device) -> (r: bool)
    ensures
        r == head_fits(weights@, *config, *device),
{
    let vocab = config_vocab_size(config);
    let hidden = config_hidden_size(config);
    weight_is_fit(weights, "model.embed_tokens.weight", &matrix_shape(vocab, hidden), device)
        && weight_is_fit(weights, "model.norm.weight", &row_shape(hidden), device) && (
    config_ties_embeddings(config) || weight_is_fit(
        weights,
        "lm_head.weight",
        &matrix_shape(vocab, hidden),
        device,
    ))
}

impl InferenceEngine {
    #[verifier::type_invariant]
    spec fn well_formed(&self) -> bool {
        sound_architecture(self.model_config) && built_for(self.model, self.model_config)
    }

    /// The largest number of prompt tokens that the engine accepts.
    pub closed spec fn max_seq_len(&self) -> usize {
        self.config.max_seq_len
    }

    /// The engine prepares images.
    pub closed spec fn takes_images(&self) -> bool {
        self.image_preprocessor is Some
    }

    /// The device that the engine was made for.
    pub closed spec fn spec_device(&self) -> Device {
        self.device
    }

    /// The architecture that the engine was made with.
    pub closed spec fn spec_model_config(&self) -> Config {
        self.model_config
    }

    /// The tokenizer that the engine was made with.
    pub closed spec fn spec_tokenizer(&self) -> Tokenizer {
        self.tokenizer
    }

    /// The settings with which the engine samples.
    pub closed spec fn spec_sampling(&self) -> SamplingParams {
        SamplingParams {
            temperature: self.config.temperature,
            top_p: self.config.top_p,
            top_k: self.config.top_k,
        }
    }

    /// An engine on weights that were read from a weight file, by name. The
    /// model is built from the weights for the architecture `model_config`.
    /// An architecture that the engine cannot run is refused, and so are
    /// weights that lack a tensor of the model or hold one in another shape,
    /// and weights from which the backend cannot build the model; on the
    /// processor it builds the model from all others. The
    /// engine prepares images exactly if the configuration says how.
    pub fn from_parts(
        config: InferenceConfig,
        model_config: Config,
        weights: Vec<(String, Tensor)>,
        tokenizer: Tokenizer,
        device: Device,
    ) -> (r: Result<InferenceEngine, EngineError>)
        ensures
            !sound_architecture(model_config) || !layers_fit(weights@, model_config, device)
                || !head_fits(weights@, model_config, device) ==> r matches Err(
                EngineError::Load(LoadError::ArchitectureMismatch(_)),
            ),
            sound_architecture(model_config) && layers_fit(weights@, model_config, device)
                && head_fits(weights@, model_config, device) && on_cpu(device) ==> r is Ok,
            r matches Err(e) ==> e matches EngineError::Load(LoadError::ArchitectureMismatch(_)),
            r matches Ok(engine) ==> engine.max_seq_len() == config.max_seq_len
                && engine.takes_images() == config.image_preprocess_config is Some
                && engine.spec_device() == device && engine.spec_model_config() == model_config
                && engine.spec_tokenizer() == tokenizer && engine.spec_sampling() == (
                SamplingParams {
                    temperature: config.temperature,
                    top_p: config.top_p,
                    top_k: config.top_k,
                }),
    {
        if config_attention_heads(&model_config) == 0 {
            return Err(
                EngineError::Load(
                    LoadError::ArchitectureMismatch("no attention heads".to_owned()),
                ),
            );
        }
        if config_key_value_heads(&model_config) == 0 {
            return Err(
                EngineError::Load(
                    LoadError::ArchitectureMismatch("no key/value heads".to_owned()),
                ),
            );
        }
        if config_hidden_size(&model_config) / config_attention_heads(&model_config) == 0 {
            return Err(
                EngineError::Load(LoadError::ArchitectureMismatch("heads without width".to_owned())),
            );
        }
        if config_fused_attention(&model_config) {
            return Err(
                EngineError::Load(
                    LoadError::ArchitectureMismatch("no fused attention kernel".to_owned()),
                ),
            );
        }
        if !layers_are_fit(&weights, &model_config, &device) {
            return Err(
                EngineError::Load(
                    LoadError::ArchitectureMismatch("the weights of a layer".to_owned()),
                ),
            );
        }
        if !head_is_fit(&weights, &model_config, &device) {
            return Err(
                EngineError::Load(
                    LoadError::ArchitectureMismatch("the weights beside the layers".to_owned()),
                ),
            );
        }
        let model = match dense_model(weights, &model_config, &device) {
            Ok(model) => model,
            Err(e) => {
                return Err(EngineError::Load(LoadError::ArchitectureMismatch(error_text(&e))));
            },
        };
        let image_preprocessor = match &config.image_preprocess_config {
            Some(images) => Some(ImagePreprocessor::new(*images)),
            None => None,
        };
        Ok(InferenceEngine { device, model, tokenizer, config, model_config, image_preprocessor })
    }

    /// The next token for the logits of the last position, with the sampling
    /// settings of the engine. The token lies in the vocabulary that the
    /// logits span.
    pub fn sample_token(&self, logits: &Tensor) -> (r: Result<u32, EngineError>)
        ensures
            r matches Ok(token) ==> tensor_shape(*logits).len() == 1 && token < tensor_shape(
                *logits,
            )[0] && is_sampled(token, *logits, self.spec_sampling()),
            r matches Err(e) ==> e.is_backend_fault(),
    {
        let params = self.config.sampling();
        sample_token_from_logits(logits, &params)
    }

    /// Generates up to `max_new_tokens` tokens after the prompt and returns
    /// them as text: the text that the tokenizer decodes the generated tokens
    /// to, without the prompt and without the end token. The prompt is
    /// refused before any forward call where it cannot be encoded, where it
    /// encodes to nothing, and where it has more tokens than the engine
    /// accepts. Every call starts on an empty cache.
    pub fn generate(&self, prompt: &str, max_new_tokens: usize) -> (r: Result<String, EngineError>)
        ensures
            r matches Ok(text) ==> is_generated_text(
                self.spec_tokenizer(),
                true,
                max_new_tokens as nat,
                text@,
            ),
            r matches Err(e) ==> e.refuses_only_above(self.max_seq_len())
                && e.is_generation_fault(),
    {
        proof {
            use_type_invariant(self);
        }
        let ids = match encode_prompt(&self.tokenizer, prompt) {
            Ok(ids) => ids,
            Err(e) => {
                return Err(EngineError::Input(e));
            },
        };
        let eos = probe_eos(&self.tokenizer, true);
        let (mut generation, mut action) = match Generation::start(
            ids,
            max_new_tokens,
            self.config.max_seq_len,
            eos,
        ) {
            Ok(started) => started,
            Err(e) => {
                return Err(EngineError::Input(e));
            },
        };
        let mut cache = match dense_cache(true, float_entries(), &self.model_config, &self.device) {
            Ok(cache) => cache,
            Err(e) => {
                return Err(backend_fault(&e));
            },
        };
        let mut logits: Option<Tensor> = None;
        loop
            invariant
                generation@.consistent(),
                generation@.phase == Phase::Prefill ==> starts_prefill(action),
                generation@.phase != Phase::Prefill ==> generation@.asks(action),
                generation@.budget <= max_new_tokens,
                generation@.eos == eos,
                eos == eos_of(self.spec_tokenizer(), true),
                cache_for(cache, self.model_config),
                generation@.phase != Phase::Prefill ==> logits is Some,
                built_for(self.model, self.model_config),
                sound_architecture(self.model_config),
            decreases generation@.steps_left(),
        {
            let reply = match action {
                Action::Finish => {
                    break ;
                },
                Action::Sample => {
                    let token = match &logits {
                        Some(row) => self.sample_token(row)?,
                        None => {
                            return Err(EngineError::Runtime(RuntimeError::OutOfTurn));
                        },
                    };
                    Reply::Token(token)
                },
                Action::Forward { tokens, position_offset } => {
                    let input = row_of(&tokens, &self.device)?;
                    let output = match dense_forward(
                        &self.model,
                        &self.model_config,
                        &input,
                        position_offset,
                        &mut cache,
                    ) {
                        Ok(output) => output,
                        Err(e) => {
                            return Err(backend_fault(&e));
                        },
                    };
                    logits = Some(last_logits(output)?);
                    Reply::Logits
                },
            };
            proof {
                crate::generation::lemma_step_makes_progress(generation@, reply);
            }
            let (next, asked) = generation.step(reply);
            generation = next;
            action = match asked {
                Ok(action) => action,
                Err(e) => {
                    return Err(EngineError::Runtime(e));
                },
            };
        }
        let tokens = generation.into_tokens();
        match decode_tokens(&self.tokenizer, &tokens) {
            Ok(text) => {
                assert(decoded_text(self.spec_tokenizer(), tokens@, true) == Some(text@));
                Ok(text)
            },
            Err(e) => Err(EngineError::Runtime(e)),
        }
    }

    /// Prepares an image for the model, as the configuration says. An engine
    /// that prepares no images refuses the request.
    pub fn preprocess_image(&self, image: &DynamicImage) -> (r: Result<Tensor, EngineError>)
        ensures
            !self.takes_images() ==> r == Err::<Tensor, EngineError>(
                EngineError::Input(InputError::ImagesNotConfigured),
            ),
            r matches Ok(pixels) ==> tensor_shape(pixels).len() == 4 && tensor_shape(pixels)[0]
                == 1 && tensor_shape(pixels)[1] == 3 && tensor_shape(pixels)[2] == tensor_shape(
                pixels,
            )[3],
            r matches Err(e) ==> if self.takes_images() {
                e.is_image_fault()
            } else {
                e == EngineError::Input(InputError::ImagesNotConfigured)
            },
    {
        match &self.image_preprocessor {
            None => Err(EngineError::Input(InputError::ImagesNotConfigured)),
            Some(preprocessor) => preprocessor.preprocess(image, &self.device),
        }
    }

    /// Prepares the image that the bytes encode.
    pub fn preprocess_image_from_bytes(&self, image_data: &[u8]) -> (r: Result<
        Tensor,
        EngineError,
    >)
        ensures
            !self.takes_images() ==> r == Err::<Tensor, EngineError>(
                EngineError::Input(InputError::ImagesNotConfigured),
            ),
            r matches Err(e) ==> if self.takes_images() {
                e.is_image_fault()
            } else {
                e == EngineError::Input(InputError::ImagesNotConfigured)
            },
    {
        match &self.image_preprocessor {
            None => Err(EngineError::Input(InputError::ImagesNotConfigured)),
            Some(preprocessor) => preprocessor.preprocess_from_bytes(image_data, &self.device),
        }
    }

    /// Generates text for a prompt and the image that the bytes encode, as
    /// for an image.
    pub fn generate_multimodal_from_bytes(
        &self,
        image_data: &[u8],
        prompt: &str,
        max_new_tokens: usize,
    ) -> (r: Result<String, EngineError>)
        ensures
            !self.takes_images() ==> r == Err::<String, EngineError>(
                EngineError::Input(InputError::ImagesNotConfigured),
            ),
            r matches Ok(text) ==> self.takes_images() && is_generated_text(
                self.spec_tokenizer(),
                true,
                max_new_tokens as nat,
                text@,
            ),
            r matches Err(e) ==> e.refuses_only_above(self.max_seq_len()),
            r matches Err(e) ==> if self.takes_images() {
                e.is_generation_fault() || e.is_image_fault()
            } else {
                e == EngineError::Input(InputError::ImagesNotConfigured)
            },
    {
        let _pixels = self.preprocess_image_from_bytes(image_data)?;
        self.generate(prompt, max_new_tokens)
    }

    /// Generates text for a prompt and an image. The image is prepared first,
    /// and an engine that prepares no images refuses the request, as it does
    /// an image that cannot be prepared. The dense model takes token ids
    /// only, so the text is generated from the prompt alone; the model with
    /// a vision tower puts the tokens of an image among the embeddings of a
    /// prompt.
    pub fn generate_multimodal(&self, image: &DynamicImage, prompt: &str, max_new_tokens: usize) -> (r:
        Result<String, EngineError>)
        ensures
            !self.takes_images() ==> r == Err::<String, EngineError>(
                EngineError::Input(InputError::ImagesNotConfigured),
            ),
            r matches Ok(text) ==> self.takes_images() && is_generated_text(
                self.spec_tokenizer(),
                true,
                max_new_tokens as nat,
                text@,
            ),
            r matches Err(e) ==> e.refuses_only_above(self.max_seq_len()),
            r matches Err(e) ==> if self.takes_images() {
                e.is_generation_fault() || e.is_image_fault()
            } else {
                e == EngineError::Input(InputError::ImagesNotConfigured)
            },
    {
        let _pixels = self.preprocess_image(image)?;
        self.generate(prompt, max_new_tokens)
    }

    /// The device that the engine computes on.
    pub fn device(&self) -> (device: &Device)
        ensures
            *device == self.spec_device(),
    {
        &self.device
    }

    pub fn config(&self) -> (config: &InferenceConfig)
        ensures
            config.max_seq_len == self.max_seq_len(),
    {
        &self.config
    }

    /// The architecture of the loaded model, which the engine can run.
    pub fn model_config(&self) -> (model_config: &Config)
        ensures
            *model_config == self.spec_model_config(),
            sound_architecture(*model_config),
    {
        proof {
            use_type_invariant(self);
        }
        &self.model_config
    }

    /// The preprocessor for images, where the engine has one.
    pub fn image_preprocessor(&self) -> (r: Option<&ImagePreprocessor>)
        ensures
            r is Some == self.takes_images(),
    {
        self.image_preprocessor.as_ref()
    }

    /// Reads the architecture of a model from its directory. No format of
    /// such a description is known to the engine, so every directory is
    /// refused.
    pub fn load_config_from_dir(_model_dir: &str) -> (r: Result<Config, EngineError>)
        ensures
            r matches Err(EngineError::Load(LoadError::UnrecognizedFormat(_))),
    {
        Err(
            EngineError::Load(
                LoadError::UnrecognizedFormat("no reader for model configurations".to_owned()),
            ),
        )
    }
}

} // verus!
