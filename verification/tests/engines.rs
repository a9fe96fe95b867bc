use std::collections::HashMap;
use std::io::Cursor;

use ai_base::decoding::{decode_tokens, draw_token, encode_prompt, probe_eos};
use ai_base::error::{EngineError, InputError, LoadError, RuntimeError};
use ai_base::sampler::{SamplingParams, UNIT};
use ai_base::service::{GGUFInferenceService, InferenceService};
use ai_base::gguf::QuantizedCounts;
use ai_base::{GGUFConfig, GGUFInferenceEngine, InferenceConfig, InferenceEngine};
use candle_core::quantized::{gguf_file, GgmlDType, QTensor};
use candle_core::{DType, Device, Tensor};
use image::{DynamicImage, RgbImage};
use candle_transformers::models::llama::Config;
use candle_transformers::models::quantized_llama::ModelWeights;
use tokenizers::Tokenizer;

const VOCAB: usize = 8;

/// A tokenizer of the words `t0` to `t7`; `eos` names the word that stands
/// for the end of the text, if any.
fn toy_tokenizer(eos: Option<usize>) -> Tokenizer {
    let mut vocab = String::new();
    for t in 0..VOCAB {
        if t > 0 {
            vocab.push(',');
        }
        if eos == Some(t) {
            vocab.push_str(&format!("\"<|endoftext|>\":{}", t));
        } else {
            vocab.push_str(&format!("\"t{}\":{}", t, t));
        }
    }
    let json = format!(
        "{{\"version\":\"1.0\",\"truncation\":null,\"padding\":null,\"added_tokens\":[],\
         \"normalizer\":null,\"pre_tokenizer\":{{\"type\":\"Whitespace\"}},\
         \"post_processor\":null,\"decoder\":null,\
         \"model\":{{\"type\":\"WordLevel\",\"vocab\":{{{}}},\"unk_token\":\"t0\"}}}}",
        vocab
    );
    json.parse::<Tokenizer>().expect("a valid tokenizer")
}

/// Embeddings that give each token its own direction.
fn embeddings() -> Tensor {
    let mut data = vec![0f32; VOCAB * VOCAB];
    for t in 0..VOCAB {
        data[t * VOCAB + t] = 1.0;
    }
    Tensor::from_vec(data, (VOCAB, VOCAB), &Device::Cpu).unwrap()
}

/// An output layer that favours, after token `t`, the token `t + 1`.
fn successor_head() -> Tensor {
    let mut data = vec![0f32; VOCAB * VOCAB];
    for t in 0..VOCAB {
        data[((t + 1) % VOCAB) * VOCAB + t] = 1.0;
    }
    Tensor::from_vec(data, (VOCAB, VOCAB), &Device::Cpu).unwrap()
}

fn ones() -> Tensor {
    Tensor::from_vec(vec![1f32; VOCAB], VOCAB, &Device::Cpu).unwrap()
}

/// A quantized model without attention blocks: after token `t` it favours
/// `t + 1`.
fn toy_weights() -> ModelWeights {
    let embd = QTensor::quantize(&embeddings(), GgmlDType::F32).unwrap();
    let norm = QTensor::quantize(&ones(), GgmlDType::F32).unwrap();
    let head = QTensor::quantize(&successor_head(), GgmlDType::F32).unwrap();
    let two = gguf_file::Value::U32(2);
    let none = gguf_file::Value::U32(0);
    let width = gguf_file::Value::U32(VOCAB as u32);
    let half = gguf_file::Value::U32(4);
    let eps = gguf_file::Value::F32(1e-6);
    let metadata = vec![
        ("llama.attention.head_count", &two),
        ("llama.attention.head_count_kv", &two),
        ("llama.block_count", &none),
        ("llama.embedding_length", &width),
        ("llama.rope.dimension_count", &half),
        ("llama.attention.layer_norm_rms_epsilon", &eps),
    ];
    let tensors = vec![
        ("token_embd.weight", &embd),
        ("output_norm.weight", &norm),
        ("output.weight", &head),
    ];
    let mut file = Cursor::new(Vec::new());
    gguf_file::write(&mut file, &metadata, &tensors).unwrap();
    file.set_position(0);
    let content = gguf_file::Content::read(&mut file).unwrap();
    ModelWeights::from_gguf(content, &mut file, &Device::Cpu).unwrap()
}

fn gguf_config(temperature: u32, top_p: u32, top_k: usize, max_seq_len: usize) -> GGUFConfig {
    GGUFConfig { max_seq_len, temperature, top_p, top_k, ..GGUFConfig::default() }
}

/// The counts that the file of the toy model names.
fn toy_counts() -> QuantizedCounts {
    QuantizedCounts { heads: 2, key_value_heads: 2, width: VOCAB }
}

fn gguf_engine(config: GGUFConfig, eos: Option<usize>) -> GGUFInferenceEngine {
    GGUFInferenceEngine::from_parts(
        config,
        toy_weights(),
        toy_counts(),
        Some(toy_tokenizer(eos)),
        Device::Cpu,
    )
    .unwrap()
}

#[test]
fn counts_that_cannot_run_are_refused() {
    for counts in [
        QuantizedCounts { heads: 0, ..toy_counts() },
        QuantizedCounts { key_value_heads: 0, ..toy_counts() },
        QuantizedCounts { width: 0, ..toy_counts() },
        QuantizedCounts { width: 1, ..toy_counts() },
    ] {
        assert!(!counts.is_sound());
        let r = GGUFInferenceEngine::from_parts(
            GGUFConfig::default(),
            toy_weights(),
            counts,
            None,
            Device::Cpu,
        );
        assert!(matches!(r, Err(EngineError::Load(LoadError::ArchitectureMismatch(_)))));
    }
    assert!(toy_counts().is_sound());
}

fn dense_model_config(heads: usize) -> Config {
    Config {
        hidden_size: VOCAB,
        intermediate_size: VOCAB,
        vocab_size: VOCAB,
        num_hidden_layers: 0,
        num_attention_heads: heads,
        num_key_value_heads: 2,
        use_flash_attn: false,
        rms_norm_eps: 1e-6,
        rope_theta: 10000.0,
        bos_token_id: None,
        eos_token_id: None,
        rope_scaling: None,
        max_position_embeddings: 64,
        tie_word_embeddings: false,
    }
}

fn dense_model() -> Vec<(String, Tensor)> {
    vec![
        ("model.embed_tokens.weight".to_string(), embeddings()),
        ("model.norm.weight".to_string(), ones()),
        ("lm_head.weight".to_string(), successor_head()),
    ]
}

/// The weights of one layer that leaves what it is given as it is: all its
/// projections are zero.
fn still_layer(layer: usize) -> Vec<(String, Tensor)> {
    let zeros = |rows: usize, cols: usize| {
        Tensor::zeros((rows, cols), DType::F32, &Device::Cpu).unwrap()
    };
    let name = |part: &str| format!("model.layers.{}.{}.weight", layer, part);
    vec![
        (name("self_attn.q_proj"), zeros(VOCAB, VOCAB)),
        (name("self_attn.k_proj"), zeros(VOCAB, VOCAB)),
        (name("self_attn.v_proj"), zeros(VOCAB, VOCAB)),
        (name("self_attn.o_proj"), zeros(VOCAB, VOCAB)),
        (name("mlp.gate_proj"), zeros(VOCAB, VOCAB)),
        (name("mlp.up_proj"), zeros(VOCAB, VOCAB)),
        (name("mlp.down_proj"), zeros(VOCAB, VOCAB)),
        (name("input_layernorm"), ones()),
        (name("post_attention_layernorm"), ones()),
    ]
}

fn layered(layers: usize) -> (Config, Vec<(String, Tensor)>) {
    let config = Config { num_hidden_layers: layers, ..dense_model_config(2) };
    let mut weights = dense_model();
    for layer in 0..layers {
        weights.extend(still_layer(layer));
    }
    (config, weights)
}

#[test]
fn every_name_of_the_end_token_ends_a_dense_generation() {
    for name in ["</s>", "<|im_end|>", "<|endoftext|>"] {
        let text = toy_tokenizer(Some(5)).to_string(false).unwrap();
        let text = text.replace("<|endoftext|>", name);
        let tokenizer = text.parse::<Tokenizer>().expect("a valid tokenizer");
        assert_eq!(probe_eos(&tokenizer, true), 5);
        let engine = InferenceEngine::from_parts(
            dense_config(0, 40, 2048, false),
            dense_model_config(2),
            dense_model(),
            tokenizer,
            Device::Cpu,
        )
        .unwrap();
        // after t1 come t2, t3, t4 and then the end token, which is left out
        assert_eq!(engine.generate("t1", 10).unwrap(), "t2 t3 t4");
        assert_eq!(engine.generate("t1", 2).unwrap(), "t2 t3");
        assert_eq!(engine.generate("t4", 10).unwrap(), "");
    }
}

#[test]
fn the_dense_engine_is_built_from_the_weights_of_its_layers() {
    let (config, weights) = layered(11);
    let engine = InferenceEngine::from_parts(
        dense_config(0, 40, 2048, false),
        config,
        weights,
        toy_tokenizer(None),
        Device::Cpu,
    )
    .unwrap();
    assert_eq!(engine.generate("t1", 3).unwrap(), "t2 t3 t4");
    assert_eq!(engine.generate("t5 t6", 2).unwrap(), "t7 t0");
}

#[test]
fn weights_that_lack_a_tensor_of_a_layer_are_refused() {
    let refused = |config: Config, weights: Vec<(String, Tensor)>| {
        matches!(
            InferenceEngine::from_parts(
                InferenceConfig::default(),
                config,
                weights,
                toy_tokenizer(None),
                Device::Cpu,
            ),
            Err(EngineError::Load(LoadError::ArchitectureMismatch(_)))
        )
    };
    // a layer is named and its weights are not there
    let (config, _) = layered(1);
    assert!(refused(config, dense_model()));
    // one tensor of the second layer is missing
    for gone in 0..9 {
        let (config, mut weights) = layered(2);
        weights.remove(3 + 9 + gone);
        assert!(refused(config, weights));
    }
    // a tensor in another shape
    let (config, mut weights) = layered(1);
    weights[3].1 = Tensor::zeros((VOCAB, VOCAB + 1), DType::F32, &Device::Cpu).unwrap();
    assert!(refused(config, weights));
    // a tensor of whole numbers
    let (config, mut weights) = layered(1);
    weights[11].1 = Tensor::zeros(VOCAB, DType::U32, &Device::Cpu).unwrap();
    assert!(refused(config, weights));
    // a second tensor of the same name in another shape
    let (config, mut weights) = layered(1);
    weights.push((weights[4].0.clone(), Tensor::zeros(3, DType::F32, &Device::Cpu).unwrap()));
    assert!(refused(config, weights));
    // the embeddings are missing: the backend says so
    let (config, mut weights) = layered(1);
    weights.remove(0);
    assert!(refused(config, weights));
    let (config, weights) = layered(1);
    assert!(!refused(config, weights));
}

fn dense_config(temperature: u32, top_k: usize, max_seq_len: usize, images: bool) -> InferenceConfig {
    let base = if images {
        InferenceConfig::for_vision_language("m".to_string(), "t".to_string())
    } else {
        InferenceConfig::default()
    };
    InferenceConfig { max_seq_len, temperature, top_k, ..base }
}

fn dense_engine(config: InferenceConfig, eos: Option<usize>) -> InferenceEngine {
    match InferenceEngine::from_parts(
        config,
        dense_model_config(2),
        dense_model(),
        toy_tokenizer(eos),
        Device::Cpu,
    ) {
        Ok(engine) => engine,
        Err(e) => panic!("the engine loads: {:?}", e),
    }
}

#[test]
fn the_quantized_engine_generates_the_same_text_on_every_run() {
    let mut engine = gguf_engine(gguf_config(0, 900_000, 40, 2048), None);
    let first = engine.generate("t1 t2", 5).unwrap();
    assert_eq!(first, "t3 t4 t5 t6 t7");
    for _ in 0..5 {
        assert_eq!(engine.generate("t1 t2", 5).unwrap(), first);
    }
}

#[test]
fn the_quantized_engine_returns_nothing_for_no_new_tokens() {
    let mut engine = gguf_engine(gguf_config(0, 900_000, 40, 2048), None);
    assert_eq!(engine.generate("t1 t2", 0).unwrap(), "");
}

#[test]
fn the_quantized_engine_stops_at_the_end_token() {
    let mut engine = gguf_engine(gguf_config(0, 900_000, 40, 2048), Some(5));
    assert_eq!(engine.generate("t1 t2", 6).unwrap(), "t3 t4");
    assert_eq!(engine.generate("t4", 6).unwrap(), "");
}

#[test]
fn the_quantized_engine_samples_from_the_kept_tokens_only() {
    let mut engine = gguf_engine(gguf_config(700_000, UNIT, 1, 2048), None);
    assert_eq!(engine.generate("t0", 4).unwrap(), "t1 t2 t3 t4");
    let mut engine = gguf_engine(gguf_config(1_500_000, 1, 0, 2048), None);
    assert_eq!(engine.generate("t6", 3).unwrap(), "t7 t0 t1");
    let mut engine = gguf_engine(gguf_config(UNIT, UNIT, 1, 2048), None);
    assert_eq!(engine.generate("t6", 1).unwrap(), "t7");
}

#[test]
fn the_quantized_engine_refuses_long_and_empty_prompts() {
    let mut engine = gguf_engine(gguf_config(0, 900_000, 40, 2), None);
    assert_eq!(
        engine.generate("t1 t2 t3", 5),
        Err(EngineError::Input(InputError::PromptTooLong { len: 3, max: 2 }))
    );
    assert_eq!(engine.generate("t1 t2", 1).unwrap(), "t3");
    assert_eq!(engine.generate("", 5), Err(EngineError::Input(InputError::EmptyPrompt)));
    assert_eq!(engine.config().max_seq_len, 2);
}

#[test]
fn the_quantized_engine_needs_a_tokenizer_to_generate() {
    let mut engine = GGUFInferenceEngine::from_parts(
        GGUFConfig::default(),
        toy_weights(),
        toy_counts(),
        None,
        Device::Cpu,
    )
    .unwrap();
    assert_eq!(
        engine.generate("t1", 5),
        Err(EngineError::Runtime(RuntimeError::TokenizerMissing))
    );
    assert_eq!(engine.test_forward(4), Ok(()));
}

#[test]
fn a_forward_call_takes_one_row_of_tokens() {
    let mut engine = gguf_engine(GGUFConfig::default(), None);
    let row = Tensor::new(&[[1u32, 2, 3]], &Device::Cpu).unwrap();
    let logits = engine.forward(&row, 0).unwrap();
    assert_eq!(logits.dims(), &[1, VOCAB]);
    let best = logits.argmax(1).unwrap().to_vec1::<u32>().unwrap();
    assert_eq!(best, vec![4]);
    let flat = Tensor::new(&[1u32, 2, 3], &Device::Cpu).unwrap();
    assert!(matches!(
        engine.forward(&flat, 0),
        Err(EngineError::Runtime(RuntimeError::Backend(_)))
    ));
    let empty = Tensor::zeros((1, 0), DType::U32, &Device::Cpu).unwrap();
    assert!(matches!(
        engine.forward(&empty, 0),
        Err(EngineError::Runtime(RuntimeError::Backend(_)))
    ));
    assert!(matches!(
        engine.test_forward(0),
        Err(EngineError::Runtime(RuntimeError::Backend(_)))
    ));
    assert_eq!(engine.test_forward(8), Ok(()));
    // token ids beyond the vocabulary are a fault of the backend, which says so
    match engine.test_forward(16) {
        Err(EngineError::Runtime(RuntimeError::Backend(message))) => {
            assert!(message.contains("index"));
        }
        other => panic!("a fault of the backend, not {:?}", other),
    }
    assert!(matches!(engine.device(), Device::Cpu));
}

#[test]
fn the_dense_engine_generates_the_same_text_on_every_run() {
    let engine = dense_engine(dense_config(0, 40, 2048, false), None);
    let first = engine.generate("t2 t3", 5).unwrap();
    assert_eq!(first, "t4 t5 t6 t7 t0");
    for _ in 0..5 {
        assert_eq!(engine.generate("t2 t3", 5).unwrap(), first);
    }
    assert_eq!(engine.generate("t2 t3", 0).unwrap(), "");
    assert_eq!(engine.config().max_seq_len, 2048);
    assert_eq!(engine.model_config().vocab_size, VOCAB);
}

#[test]
fn the_dense_engine_stops_at_the_end_token_and_refuses_long_prompts() {
    let engine = dense_engine(dense_config(0, 40, 3, false), Some(6));
    assert_eq!(engine.generate("t3", 9).unwrap(), "t4 t5");
    assert_eq!(
        engine.generate("t1 t2 t3 t4", 9),
        Err(EngineError::Input(InputError::PromptTooLong { len: 4, max: 3 }))
    );
    assert_eq!(engine.generate("", 9), Err(EngineError::Input(InputError::EmptyPrompt)));
    let engine = dense_engine(dense_config(800_000, 1, 3, false), None);
    assert_eq!(engine.generate("t3", 2).unwrap(), "t4 t5");
}

#[test]
fn the_dense_engine_takes_images_only_when_set_up_for_them() {
    let picture = DynamicImage::ImageRgb8(RgbImage::from_pixel(40, 30, image::Rgb([9, 99, 199])));
    let engine = dense_engine(dense_config(0, 40, 2048, false), None);
    assert!(engine.image_preprocessor().is_none());
    assert_eq!(
        engine.generate_multimodal(&picture, "t1", 2),
        Err(EngineError::Input(InputError::ImagesNotConfigured))
    );
    assert!(matches!(
        engine.preprocess_image(&picture),
        Err(EngineError::Input(InputError::ImagesNotConfigured))
    ));
    let engine = dense_engine(dense_config(0, 40, 2048, true), None);
    assert_eq!(engine.image_preprocessor().unwrap().config().image_size, 448);
    assert_eq!(engine.preprocess_image(&picture).unwrap().dims(), &[1, 3, 448, 448]);
    assert_eq!(engine.generate_multimodal(&picture, "t1", 2).unwrap(), "t2 t3");
    let nothing = DynamicImage::ImageRgb8(RgbImage::new(0, 0));
    assert!(matches!(
        engine.generate_multimodal(&nothing, "t1", 2),
        Err(EngineError::Input(InputError::Image(_)))
    ));
    let mut bytes = Cursor::new(Vec::new());
    picture.write_to(&mut bytes, image::ImageFormat::Png).unwrap();
    let bytes = bytes.into_inner();
    assert_eq!(engine.preprocess_image_from_bytes(&bytes).unwrap().dims(), &[1, 3, 448, 448]);
    assert_eq!(engine.generate_multimodal_from_bytes(&bytes, "t1", 2).unwrap(), "t2 t3");
    assert!(matches!(
        engine.generate_multimodal_from_bytes(b"junk", "t1", 2),
        Err(EngineError::Input(InputError::ImageDecoding(_)))
    ));
    let plain = dense_engine(dense_config(0, 40, 2048, false), None);
    assert_eq!(
        plain.generate_multimodal_from_bytes(&bytes, "t1", 2),
        Err(EngineError::Input(InputError::ImagesNotConfigured))
    );
}

#[test]
fn an_architecture_without_attention_heads_is_refused() {
    let r = InferenceEngine::from_parts(
        InferenceConfig::default(),
        dense_model_config(0),
        dense_model(),
        toy_tokenizer(None),
        Device::Cpu,
    );
    assert!(matches!(r, Err(EngineError::Load(_))));
    assert!(matches!(
        InferenceEngine::load_config_from_dir("models/x"),
        Err(EngineError::Load(_))
    ));
}

#[test]
fn an_architecture_that_cannot_run_is_refused() {
    let without_key_value_heads = Config { num_key_value_heads: 0, ..dense_model_config(2) };
    let r = InferenceEngine::from_parts(
        InferenceConfig::default(),
        without_key_value_heads,
        dense_model(),
        toy_tokenizer(None),
        Device::Cpu,
    );
    assert!(matches!(r, Err(EngineError::Load(LoadError::ArchitectureMismatch(_)))));
    // more heads than the model is wide: no head has a width
    let narrow = Config { num_attention_heads: VOCAB + 1, ..dense_model_config(2) };
    let r = InferenceEngine::from_parts(
        InferenceConfig::default(),
        narrow,
        dense_model(),
        toy_tokenizer(None),
        Device::Cpu,
    );
    assert!(matches!(r, Err(EngineError::Load(LoadError::ArchitectureMismatch(_)))));
    let empty = Config { hidden_size: 0, vocab_size: 0, ..dense_model_config(1) };
    let r = InferenceEngine::from_parts(
        InferenceConfig::default(),
        empty,
        vec![
            (
                "model.embed_tokens.weight".to_string(),
                Tensor::zeros((0, 0), DType::F32, &Device::Cpu).unwrap(),
            ),
            ("model.norm.weight".to_string(), Tensor::zeros(0, DType::F32, &Device::Cpu).unwrap()),
            (
                "lm_head.weight".to_string(),
                Tensor::zeros((0, 0), DType::F32, &Device::Cpu).unwrap(),
            ),
        ],
        toy_tokenizer(None),
        Device::Cpu,
    );
    assert!(matches!(r, Err(EngineError::Load(LoadError::ArchitectureMismatch(_)))));
    let fused = Config { use_flash_attn: true, ..dense_model_config(2) };
    let r = InferenceEngine::from_parts(
        InferenceConfig::default(),
        fused,
        dense_model(),
        toy_tokenizer(None),
        Device::Cpu,
    );
    assert!(matches!(r, Err(EngineError::Load(LoadError::ArchitectureMismatch(_)))));
    let sound = InferenceEngine::from_parts(
        InferenceConfig::default(),
        dense_model_config(2),
        dense_model(),
        toy_tokenizer(None),
        Device::Cpu,
    );
    assert!(sound.is_ok());
}

#[test]
fn decoding_an_encoded_text_gives_the_text_back() {
    let tokenizer = toy_tokenizer(None);
    for text in ["t1", "t1 t2 t3", "t7 t7 t0 t4"] {
        let ids = encode_prompt(&tokenizer, text).unwrap();
        assert_eq!(decode_tokens(&tokenizer, &ids).unwrap(), text);
    }
    assert_eq!(encode_prompt(&tokenizer, "t3 t5").unwrap(), vec![3, 5]);
    assert_eq!(decode_tokens(&tokenizer, &vec![5, 3]).unwrap(), "t5 t3");
    // white space is brought to single blanks
    let ids = encode_prompt(&tokenizer, "  t1   t2 ").unwrap();
    assert_eq!(decode_tokens(&tokenizer, &ids).unwrap(), "t1 t2");
    assert_eq!(encode_prompt(&tokenizer, ""), Err(InputError::EmptyPrompt));
    assert_eq!(encode_prompt(&tokenizer, "   "), Err(InputError::EmptyPrompt));
    assert_eq!(decode_tokens(&tokenizer, &Vec::new()).unwrap(), "");
}

/// A tokenizer of the words `t0` to `t7` that knows no other word and has
/// nothing to put in its place.
fn strict_tokenizer() -> Tokenizer {
    let text = toy_tokenizer(None).to_string(false).unwrap();
    let text = text.replace("\"unk_token\":\"t0\"", "\"unk_token\":\"<unk>\"");
    assert!(text.contains("<unk>"));
    text.parse::<Tokenizer>().expect("a valid tokenizer")
}

#[test]
fn a_prompt_that_cannot_be_encoded_is_refused() {
    let tokenizer = strict_tokenizer();
    assert_eq!(encode_prompt(&tokenizer, "t1 t2").unwrap(), vec![1, 2]);
    assert!(matches!(encode_prompt(&tokenizer, "t1 zebra"), Err(InputError::Encoding(_))));
    let mut engine = GGUFInferenceEngine::from_parts(
        gguf_config(0, 900_000, 40, 2048),
        toy_weights(),
        toy_counts(),
        Some(strict_tokenizer()),
        Device::Cpu,
    )
    .unwrap();
    assert!(matches!(
        engine.generate("zebra", 3),
        Err(EngineError::Input(InputError::Encoding(_)))
    ));
    assert_eq!(engine.generate("t1", 2).unwrap(), "t2 t3");
}

#[test]
fn the_end_token_is_found_by_its_name_or_set_beyond_the_vocabulary() {
    assert_eq!(probe_eos(&toy_tokenizer(Some(5)), true), 5);
    assert_eq!(probe_eos(&toy_tokenizer(Some(5)), false), 5);
    assert_eq!(probe_eos(&toy_tokenizer(None), true), VOCAB as u32);
    assert_eq!(probe_eos(&toy_tokenizer(None), false), VOCAB as u32);
}

#[test]
fn a_service_without_an_engine_is_not_initialized() {
    let service = InferenceService::new();
    assert!(!service.is_loaded());
    assert!(service.engine().is_none());
    assert_eq!(
        service.generate("Hello", 5),
        Err(EngineError::Runtime(RuntimeError::NotInitialized))
    );
    let picture = DynamicImage::ImageRgb8(RgbImage::new(4, 4));
    assert_eq!(
        service.generate_multimodal(&picture, "Hello", 5),
        Err(EngineError::Runtime(RuntimeError::NotInitialized))
    );
    assert_eq!(
        service.generate_multimodal_from_bytes(b"junk", "Hello", 5),
        Err(EngineError::Runtime(RuntimeError::NotInitialized))
    );
    let mut service = GGUFInferenceService::default();
    assert!(!service.is_loaded());
    assert_eq!(
        service.generate("Hello", 5),
        Err(EngineError::Runtime(RuntimeError::NotInitialized))
    );
    assert_eq!(
        service.test_forward(8),
        Err(EngineError::Runtime(RuntimeError::NotInitialized))
    );
    assert!(!service.is_loaded());
}

#[test]
fn a_service_with_an_engine_generates() {
    let mut service = GGUFInferenceService::new();
    service.install(gguf_engine(gguf_config(0, 900_000, 40, 2048), None));
    assert!(service.is_loaded());
    assert_eq!(service.generate("t1", 2).unwrap(), "t2 t3");
    assert_eq!(service.test_forward(8), Ok(()));
    assert!(service.is_loaded());
    let mut service = InferenceService::default();
    service.install(dense_engine(dense_config(0, 40, 2048, true), None));
    assert!(service.is_loaded());
    assert_eq!(service.generate("t1", 2).unwrap(), "t2 t3");
    let picture = DynamicImage::ImageRgb8(RgbImage::new(4, 4));
    assert_eq!(service.generate_multimodal(&picture, "t5", 1).unwrap(), "t6");
}

#[test]
fn a_failed_load_leaves_the_service_as_it_was() {
    let unreadable = || EngineError::Load(LoadError::Unreadable("model.gguf".to_string()));
    let mut service = GGUFInferenceService::new();
    assert_eq!(service.settle(Err(unreadable())), Err(unreadable()));
    assert!(!service.is_loaded());
    assert_eq!(service.settle(Ok(gguf_engine(gguf_config(0, 900_000, 40, 2048), None))), Ok(()));
    assert!(service.is_loaded());
    assert_eq!(service.settle(Err(unreadable())), Err(unreadable()));
    assert!(service.is_loaded());
    assert_eq!(service.generate("t1", 2).unwrap(), "t2 t3");
    // a second engine takes the place of the first
    assert_eq!(service.settle(Ok(gguf_engine(gguf_config(0, 900_000, 40, 1), None))), Ok(()));
    assert!(matches!(
        service.generate("t1 t2", 2),
        Err(EngineError::Input(InputError::PromptTooLong { len: 2, max: 1 }))
    ));

    let mismatch = InferenceEngine::from_parts(
        InferenceConfig::default(),
        dense_model_config(0),
        dense_model(),
        toy_tokenizer(None),
        Device::Cpu,
    );
    let mut service = InferenceService::new();
    assert!(matches!(
        service.settle(mismatch),
        Err(EngineError::Load(LoadError::ArchitectureMismatch(_)))
    ));
    assert!(!service.is_loaded());
    assert_eq!(service.settle(Ok(dense_engine(dense_config(0, 40, 2048, false), None))), Ok(()));
    assert!(service.settle(Err(unreadable())).is_err());
    assert!(service.is_loaded());
    assert_eq!(service.generate("t1", 2).unwrap(), "t2 t3");
}

#[test]
fn the_dense_engine_samples_with_its_own_settings() {
    let logits = Tensor::new(&[0.5f32, 3.0, 1.0, 3.0, -2.0, 0.0, 0.0, 0.0], &Device::Cpu).unwrap();
    let greedy = dense_engine(dense_config(0, 40, 2048, false), None);
    for _ in 0..5 {
        assert_eq!(greedy.sample_token(&logits), Ok(1));
    }
    // with one candidate kept, the most probable token is drawn at any temperature
    let narrow = dense_engine(dense_config(900_000, 1, 2048, false), None);
    for _ in 0..5 {
        assert_eq!(narrow.sample_token(&logits), Ok(1));
    }
    // with two kept, one of the two most probable
    let pair = dense_engine(dense_config(900_000, 2, 2048, false), None);
    for _ in 0..20 {
        let token = pair.sample_token(&logits).unwrap();
        assert!(token == 1 || token == 3);
    }
    let square = Tensor::zeros((2, 2), DType::F32, &Device::Cpu).unwrap();
    assert!(matches!(
        greedy.sample_token(&square),
        Err(EngineError::Runtime(RuntimeError::Backend(_)))
    ));
}

#[test]
fn drawn_numbers_stay_below_the_whole_mass() {
    let params = SamplingParams { temperature: UNIT, top_p: UNIT, top_k: 0 };
    for _ in 0..50 {
        assert_eq!(draw_token(&vec![u32::MAX, 1], &params), 0);
        assert_eq!(draw_token(&vec![0, 0, 9, 0], &params), 2);
    }
    assert_eq!(draw_token(&vec![0, 0], &params), 1);
    let greedy = SamplingParams { temperature: 0, top_p: UNIT, top_k: 0 };
    assert_eq!(draw_token(&vec![4, 9, 9], &greedy), 1);
}
