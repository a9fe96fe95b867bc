use ai_base::error::{EngineError, LoadError, RuntimeError};
use ai_base::error::InputError;
use ai_base::qwen3vl::{
    times, Qwen3VLConfig, Qwen3VLInferenceEngine, Qwen3VLModel, Qwen3VLTextConfig, Qwen3VLVisionAttention,
    Qwen3VLVisionBlock, Qwen3VLVisionConfig, Qwen3VLVisionModel, Qwen3VLVisionPatchEmbed,
    Qwen3VLVisionPatchMerger,
};
use ai_base::rope::Qwen3VLTextRotaryEmbedding;
use ai_base::vision::{GeometryError, VisionGridTHW};
use candle_core::{DType, Device, Tensor};
use candle_nn::{Embedding, LayerNorm, Linear};

fn config() -> Qwen3VLVisionConfig {
    Qwen3VLVisionConfig {
        depth: 2,
        hidden_size: 4,
        in_channels: 1,
        num_heads: 2,
        out_hidden_size: 3,
        patch_size: 2,
        spatial_merge_size: 2,
        temporal_patch_size: 1,
    }
}

fn identity(n: usize) -> Tensor {
    Tensor::eye(n, DType::F32, &Device::Cpu).unwrap()
}

fn zeros(rows: usize, cols: usize) -> Tensor {
    Tensor::zeros((rows, cols), DType::F32, &Device::Cpu).unwrap()
}

fn plain_norm(size: usize) -> LayerNorm {
    LayerNorm::new(
        Tensor::ones(size, DType::F32, &Device::Cpu).unwrap(),
        Tensor::zeros(size, DType::F32, &Device::Cpu).unwrap(),
        1e-6,
    )
}

/// Queries and keys are zero, so that every patch attends to all alike; the
/// values are the rows themselves.
fn averaging_attention() -> Qwen3VLVisionAttention {
    let qkv = Tensor::cat(&[zeros(8, 4), identity(4)], 0).unwrap();
    match Qwen3VLVisionAttention::from_parts(
        &config(),
        Linear::new(qkv, None),
        Linear::new(identity(4), None),
    ) {
        Ok(attention) => attention,
        Err(e) => panic!("the sizes fit: {:?}", e),
    }
}

fn block() -> Qwen3VLVisionBlock {
    Qwen3VLVisionBlock::from_parts(
        plain_norm(4),
        plain_norm(4),
        averaging_attention(),
        Linear::new(zeros(4, 4), None),
    )
}

fn patch_embed() -> Qwen3VLVisionPatchEmbed {
    let weight = identity(4).reshape((4, 1, 1, 2, 2)).unwrap();
    let bias = Tensor::new(&[10f32, 20.0, 30.0, 40.0], &Device::Cpu).unwrap();
    match Qwen3VLVisionPatchEmbed::new(&config(), weight, bias) {
        Ok(embed) => embed,
        Err(e) => panic!("the weights fit: {:?}", e),
    }
}

fn merger(postshuffle: bool) -> Qwen3VLVisionPatchMerger {
    let norm = if postshuffle { plain_norm(16) } else { plain_norm(4) };
    let fc1 = Linear::new(identity(16), None);
    let fc2 = Linear::new(Tensor::ones((3, 16), DType::F32, &Device::Cpu).unwrap(), None);
    match Qwen3VLVisionPatchMerger::from_parts(&config(), norm, fc1, fc2, postshuffle) {
        Ok(merger) => merger,
        Err(e) => panic!("the sizes fit: {:?}", e),
    }
}

fn is_backend_fault<T>(r: Result<T, EngineError>) -> bool {
    matches!(r, Err(EngineError::Runtime(RuntimeError::Backend(_))))
}

fn is_mismatch<T>(r: Result<T, EngineError>) -> bool {
    matches!(r, Err(EngineError::Load(LoadError::ArchitectureMismatch(_))))
}

#[test]
fn sizes_of_the_tower_are_products_that_fit() {
    let cfg = config();
    assert_eq!(cfg.patch_values(), Some(4));
    assert_eq!(cfg.merged_hidden_size(), Some(16));
    assert!(cfg.is_coherent());
    let real = Qwen3VLVisionConfig {
        depth: 27,
        hidden_size: 1152,
        in_channels: 3,
        num_heads: 16,
        out_hidden_size: 4096,
        patch_size: 16,
        spatial_merge_size: 2,
        temporal_patch_size: 2,
    };
    assert_eq!(real.patch_values(), Some(1536));
    assert_eq!(real.merged_hidden_size(), Some(4608));
    assert!(real.is_coherent());
    assert!(!Qwen3VLVisionConfig { num_heads: 0, ..cfg }.is_coherent());
    assert!(!Qwen3VLVisionConfig { num_heads: 3, ..cfg }.is_coherent());
    assert!(!Qwen3VLVisionConfig { spatial_merge_size: 0, ..cfg }.is_coherent());
    assert!(!Qwen3VLVisionConfig { hidden_size: 0, ..cfg }.is_coherent());
    let huge = Qwen3VLVisionConfig { patch_size: usize::MAX, ..cfg };
    assert_eq!(huge.patch_values(), None);
    assert!(!huge.is_coherent());
    assert_eq!(Qwen3VLVisionConfig { in_channels: 0, ..huge }.patch_values(), Some(0));
    let wide = Qwen3VLVisionConfig { spatial_merge_size: usize::MAX, ..cfg };
    assert_eq!(wide.merged_hidden_size(), None);
    assert_eq!(times(3, 5), Some(15));
    assert_eq!(times(usize::MAX, 2), None);
    assert_eq!(times(usize::MAX, 0), Some(0));
}

#[test]
fn the_tower_lays_out_images_by_its_patches() {
    let real = Qwen3VLVisionConfig { patch_size: 14, spatial_merge_size: 2, ..config() };
    let layout = real.layout(512, 512).unwrap();
    assert_eq!(layout.grid, VisionGridTHW { temporal: 1, height: 18, width: 18 });
    assert_eq!((layout.resized_height, layout.resized_width), (504, 504));
    let huge = Qwen3VLVisionConfig { patch_size: usize::MAX, ..config() };
    assert_eq!(huge.layout(512, 512), Err(GeometryError::TooLarge));
    let none = Qwen3VLVisionConfig { patch_size: 0, ..config() };
    assert_eq!(none.layout(512, 512), Err(GeometryError::ZeroFactor));
}

#[test]
fn patches_are_embedded_by_one_linear_map() {
    let embed = patch_embed();
    let patches = Tensor::new(&[[1f32, 2.0, 3.0, 4.0], [5.0, 6.0, 7.0, 8.0]], &Device::Cpu).unwrap();
    let out = embed.forward(&patches).unwrap();
    assert_eq!(out.dims(), &[2, 4]);
    assert_eq!(
        out.to_vec2::<f32>().unwrap(),
        vec![vec![11.0, 22.0, 33.0, 44.0], vec![15.0, 26.0, 37.0, 48.0]]
    );
    assert!(is_backend_fault(embed.forward(&zeros(2, 5))));
    let flat = Tensor::zeros(4, DType::F32, &Device::Cpu).unwrap();
    assert!(is_backend_fault(embed.forward(&flat)));
}

#[test]
fn weights_of_a_wrong_shape_are_refused_at_load_time() {
    let weight = identity(4).reshape((4, 1, 1, 2, 2)).unwrap();
    let bias = Tensor::zeros(4, DType::F32, &Device::Cpu).unwrap();
    assert!(is_mismatch(Qwen3VLVisionPatchEmbed::new(&config(), identity(4), bias.clone())));
    let long = Tensor::zeros(5, DType::F32, &Device::Cpu).unwrap();
    assert!(is_mismatch(Qwen3VLVisionPatchEmbed::new(&config(), weight.clone(), long)));
    let other = Qwen3VLVisionConfig { patch_size: 4, ..config() };
    assert!(is_mismatch(Qwen3VLVisionPatchEmbed::new(&other, weight.clone(), bias.clone())));
    let turned = identity(4).reshape((1, 4, 1, 2, 2)).unwrap();
    assert!(is_mismatch(Qwen3VLVisionPatchEmbed::new(&config(), turned, bias.clone())));
    assert!(Qwen3VLVisionPatchEmbed::new(&config(), weight, bias).is_ok());
    let headless = Qwen3VLVisionConfig { num_heads: 0, ..config() };
    assert!(is_mismatch(Qwen3VLVisionAttention::from_parts(
        &headless,
        Linear::new(zeros(12, 4), None),
        Linear::new(identity(4), None),
    )));
    let unmerged = Qwen3VLVisionConfig { spatial_merge_size: 0, ..config() };
    assert!(is_mismatch(Qwen3VLVisionPatchMerger::from_parts(
        &unmerged,
        plain_norm(4),
        Linear::new(identity(16), None),
        Linear::new(identity(16), None),
        false,
    )));
}

#[test]
fn every_patch_attends_to_every_patch() {
    let attention = averaging_attention();
    let xs = Tensor::new(
        &[[1f32, 2.0, 3.0, 4.0], [3.0, 4.0, 5.0, 6.0], [8.0, 0.0, 1.0, 2.0]],
        &Device::Cpu,
    )
    .unwrap();
    let out = attention.forward(&xs).unwrap();
    assert_eq!(out.dims(), &[3, 4]);
    for row in out.to_vec2::<f32>().unwrap() {
        for (got, want) in row.iter().zip([4.0f32, 2.0, 3.0, 4.0]) {
            assert!((got - want).abs() < 1e-5);
        }
    }
    assert!(is_backend_fault(attention.forward(&zeros(3, 5))));
    assert!(is_backend_fault(attention.forward(&zeros(0, 4))));
}

#[test]
fn attention_follows_the_keys_that_match_the_query() {
    // queries and keys are the rows themselves, scaled up: every row attends
    // to itself, and the values are the rows
    let big = identity(4).affine(50.0, 0.0).unwrap();
    let qkv = Tensor::cat(&[big.clone(), big, identity(4)], 0).unwrap();
    let attention = match Qwen3VLVisionAttention::from_parts(
        &config(),
        Linear::new(qkv, None),
        Linear::new(identity(4), None),
    ) {
        Ok(attention) => attention,
        Err(e) => panic!("the sizes fit: {:?}", e),
    };
    let xs = Tensor::new(&[[1f32, 0.0, 1.0, 0.0], [0.0, 1.0, 0.0, 1.0]], &Device::Cpu).unwrap();
    let out = attention.forward(&xs).unwrap();
    let rows = out.to_vec2::<f32>().unwrap();
    for (row, want) in rows.iter().zip([[1f32, 0.0, 1.0, 0.0], [0.0, 1.0, 0.0, 1.0]]) {
        for (got, want) in row.iter().zip(want) {
            assert!((got - want).abs() < 1e-4);
        }
    }
}

#[test]
fn a_block_adds_to_what_it_is_given() {
    let xs = Tensor::new(&[[1f32, 2.0, 3.0, 4.0], [3.0, 4.0, 5.0, 6.0]], &Device::Cpu).unwrap();
    let out = block().forward(&xs).unwrap();
    assert_eq!(out.dims(), &[2, 4]);
    // both rows are normalised to the same values, whose average is added
    let normed = plain_norm(4);
    let added = candle_core::Module::forward(&normed, &xs).unwrap().to_vec2::<f32>().unwrap();
    let got = out.to_vec2::<f32>().unwrap();
    for r in 0..2 {
        for c in 0..4 {
            let mean = (added[0][c] + added[1][c]) / 2.0;
            assert!((got[r][c] - (xs.to_vec2::<f32>().unwrap()[r][c] + mean)).abs() < 1e-4);
        }
    }
    assert!(is_backend_fault(block().forward(&zeros(2, 3))));
}

#[test]
fn merged_patches_become_one_token() {
    let xs = Tensor::arange(0f32, 32.0, &Device::Cpu).unwrap().reshape((8, 4)).unwrap();
    for postshuffle in [false, true] {
        let out = merger(postshuffle).forward(&xs).unwrap();
        assert_eq!(out.dims(), &[2, 3]);
    }
    // rows of ones after the normalisation: sixteen values, summed by the last layer
    let flat = Tensor::ones((4, 4), DType::F32, &Device::Cpu).unwrap();
    let out = merger(false).forward(&flat).unwrap();
    assert_eq!(out.dims(), &[1, 3]);
    assert!(is_backend_fault(merger(false).forward(&zeros(3, 4))));
    assert!(is_backend_fault(merger(true).forward(&zeros(6, 4))));
    let cube = Tensor::zeros((2, 2, 4), DType::F32, &Device::Cpu).unwrap();
    assert!(is_backend_fault(merger(false).forward(&cube)));
}

#[test]
fn the_merger_bends_the_values_between_its_layers() {
    // a normalisation that gives -1 and 2 whatever it is handed
    let bias: Vec<f32> = (0..16).map(|i| if i % 2 == 0 { -1.0 } else { 2.0 }).collect();
    let norm = LayerNorm::new(
        Tensor::zeros(16, DType::F32, &Device::Cpu).unwrap(),
        Tensor::from_vec(bias, 16, &Device::Cpu).unwrap(),
        1e-6,
    );
    let fc1 = Linear::new(identity(16), None);
    let fc2 = Linear::new(Tensor::ones((3, 16), DType::F32, &Device::Cpu).unwrap(), None);
    let merger = match Qwen3VLVisionPatchMerger::from_parts(&config(), norm, fc1, fc2, true) {
        Ok(merger) => merger,
        Err(e) => panic!("the sizes fit: {:?}", e),
    };
    let xs = Tensor::arange(0f32, 16.0, &Device::Cpu).unwrap().reshape((4, 4)).unwrap();
    let out = merger.forward(&xs).unwrap();
    assert_eq!(out.dims(), &[1, 3]);
    // eight times gelu(-1) and eight times gelu(2)
    let want = 8.0 * -0.158_655_25 + 8.0 * 1.954_499_7;
    for v in out.to_vec2::<f32>().unwrap().remove(0) {
        assert!((v - want).abs() < 1e-3);
    }
}

fn tower() -> Qwen3VLVisionModel {
    Qwen3VLVisionModel::from_parts(patch_embed(), vec![block(), block()], merger(false))
}

#[test]
fn the_tower_gives_one_token_for_every_group_of_patches() {
    let patches = Tensor::arange(0f32, 64.0, &Device::Cpu).unwrap().reshape((16, 4)).unwrap();
    let out = tower().forward(&patches).unwrap();
    assert_eq!(out.dims(), &[4, 3]);
    assert!(is_backend_fault(tower().forward(&zeros(6, 4))));
    assert!(is_backend_fault(tower().forward(&zeros(16, 3))));
    let empty = Qwen3VLVisionModel::from_parts(patch_embed(), Vec::new(), merger(true));
    assert_eq!(empty.forward(&patches).unwrap().dims(), &[4, 3]);
}

fn model() -> Qwen3VLModel {
    let text = Qwen3VLTextConfig { vocab_size: 6, hidden_size: 3, head_dim: 4, rope_theta: 10_000 };
    let config = Qwen3VLConfig { vision_config: config(), text_config: text, image_token_id: 5 };
    let table = Tensor::arange(0f32, 18.0, &Device::Cpu).unwrap().reshape((6, 3)).unwrap();
    let inv_freq = Tensor::new(&[1f32, 0.01], &Device::Cpu).unwrap();
    let rope = match Qwen3VLTextRotaryEmbedding::from_frequencies(inv_freq) {
        Ok(rope) => rope,
        Err(e) => panic!("the table is made: {:?}", e),
    };
    Qwen3VLModel::from_parts(config, tower(), Embedding::new(table, 3), rope)
}

#[test]
fn the_model_embeds_the_text_tokens() {
    let model = model();
    assert_eq!(model.config().text_config.vocab_size, 6);
    assert_eq!(model.config().image_token_id, 5);
    let ids = Tensor::new(&[[4u32, 0, 2]], &Device::Cpu).unwrap();
    let embeds = model.forward(&ids, None, None).unwrap();
    assert_eq!(embeds.dims(), &[1, 3, 3]);
    assert_eq!(
        embeds.to_vec3::<f32>().unwrap(),
        vec![vec![vec![12.0, 13.0, 14.0], vec![0.0, 1.0, 2.0], vec![6.0, 7.0, 8.0]]]
    );
    let pixels = Tensor::zeros((1, 4, 8), DType::F32, &Device::Cpu).unwrap();
    assert_eq!(model.forward(&ids, Some(&pixels), None).unwrap().dims(), &[1, 3, 3]);
    let beyond = Tensor::new(&[[9u32]], &Device::Cpu).unwrap();
    assert!(is_backend_fault(model.forward(&beyond, None, None)));
}

#[test]
fn the_tokens_of_an_image_take_the_places_of_the_image_tokens() {
    let model = model();
    // one channel, a grid of one by two cells, each of two by two patches of two by two pixels
    let pixels = Tensor::arange(0f32, 32.0, &Device::Cpu).unwrap().reshape((1, 1, 4, 8)).unwrap();
    let grid = Tensor::new(&[[1u32, 1, 2]], &Device::Cpu).unwrap();
    let ids = Tensor::new(&[[4u32, 5, 5, 2]], &Device::Cpu).unwrap();
    let out = model.forward(&ids, Some(&pixels), Some(&grid)).unwrap();
    assert_eq!(out.dims(), &[1, 4, 3]);
    let rows = out.to_vec3::<f32>().unwrap().remove(0);
    assert_eq!(rows[0], vec![12.0, 13.0, 14.0]);
    assert_eq!(rows[3], vec![6.0, 7.0, 8.0]);
    let vision = tower();
    let image = pixels.reshape((1, 4, 8)).unwrap();
    let cells = VisionGridTHW { temporal: 1, height: 1, width: 2 };
    let tokens = vision.encode_image(&config(), &image, &cells).unwrap();
    assert_eq!(tokens.dims(), &[2, 3]);
    let tokens = tokens.to_vec2::<f32>().unwrap();
    assert_eq!(rows[1], tokens[0]);
    assert_eq!(rows[2], tokens[1]);

    // too few and too many image tokens for the grid
    let few = Tensor::new(&[[4u32, 5, 1, 2]], &Device::Cpu).unwrap();
    assert!(is_backend_fault(model.forward(&few, Some(&pixels), Some(&grid))));
    let many = Tensor::new(&[[5u32, 5, 5, 2]], &Device::Cpu).unwrap();
    assert!(is_backend_fault(model.forward(&many, Some(&pixels), Some(&grid))));
    // pixels that do not fit the grid
    let tall = Tensor::new(&[[1u32, 2, 1]], &Device::Cpu).unwrap();
    assert!(is_backend_fault(model.forward(&ids, Some(&pixels), Some(&tall))));
    let frames = Tensor::new(&[[2u32, 1, 2]], &Device::Cpu).unwrap();
    assert!(is_backend_fault(model.forward(&ids, Some(&pixels), Some(&frames))));
}

#[test]
fn patches_follow_the_cells_of_the_grid() {
    let image = Tensor::arange(0f32, 32.0, &Device::Cpu).unwrap().reshape((1, 4, 8)).unwrap();
    let cells = VisionGridTHW { temporal: 1, height: 1, width: 2 };
    let patches = config().patchify(&image, &cells).unwrap();
    assert_eq!(patches.dims(), &[8, 4]);
    assert_eq!(
        patches.to_vec2::<f32>().unwrap(),
        vec![
            vec![0.0, 1.0, 8.0, 9.0],
            vec![2.0, 3.0, 10.0, 11.0],
            vec![16.0, 17.0, 24.0, 25.0],
            vec![18.0, 19.0, 26.0, 27.0],
            vec![4.0, 5.0, 12.0, 13.0],
            vec![6.0, 7.0, 14.0, 15.0],
            vec![20.0, 21.0, 28.0, 29.0],
            vec![22.0, 23.0, 30.0, 31.0],
        ]
    );
    let video = Qwen3VLVisionConfig { temporal_patch_size: 2, in_channels: 2, ..config() };
    let image = Tensor::arange(0f32, 32.0, &Device::Cpu).unwrap().reshape((2, 4, 4)).unwrap();
    let one = VisionGridTHW { temporal: 1, height: 1, width: 1 };
    let patches = video.patchify(&image, &one).unwrap();
    assert_eq!(patches.dims(), &[4, 16]);
    assert_eq!(
        patches.to_vec2::<f32>().unwrap()[0],
        vec![
            0.0, 1.0, 4.0, 5.0, 0.0, 1.0, 4.0, 5.0, 16.0, 17.0, 20.0, 21.0, 16.0, 17.0, 20.0,
            21.0
        ]
    );
    assert!(is_backend_fault(config().patchify(&image, &cells)));
    let none = Qwen3VLVisionConfig { temporal_patch_size: 0, ..config() };
    assert!(is_backend_fault(none.patchify(&image, &one)));
}

fn word_tokenizer() -> tokenizers::Tokenizer {
    let json = "{\"version\":\"1.0\",\"truncation\":null,\"padding\":null,\"added_tokens\":[],\
        \"normalizer\":null,\"pre_tokenizer\":{\"type\":\"Whitespace\"},\
        \"post_processor\":null,\"decoder\":null,\
        \"model\":{\"type\":\"WordLevel\",\"vocab\":{\"a\":0,\"b\":1,\"c\":2,\"d\":3,\"e\":4,\
        \"img\":5},\"unk_token\":\"a\"}}";
    json.parse().expect("a valid tokenizer")
}

#[test]
fn the_engine_embeds_a_prompt_with_and_without_an_image() {
    let engine = match Qwen3VLInferenceEngine::from_parts(model(), word_tokenizer(), Device::Cpu) {
        Ok(engine) => engine,
        Err(e) => panic!("the engine is made: {:?}", e),
    };
    let embeds = engine.embed_prompt("e a c", None).unwrap();
    assert_eq!(
        embeds.to_vec3::<f32>().unwrap(),
        vec![vec![vec![12.0, 13.0, 14.0], vec![0.0, 1.0, 2.0], vec![6.0, 7.0, 8.0]]]
    );
    // the tower takes one channel; an image with three is refused, whatever the prompt
    let picture = image::DynamicImage::ImageRgb8(image::RgbImage::new(8, 8));
    assert!(engine.embed_prompt("e img c", Some(&picture)).is_err());
    let nothing = image::DynamicImage::ImageRgb8(image::RgbImage::new(0, 0));
    assert!(matches!(
        engine.embed_prompt("e img c", Some(&nothing)),
        Err(EngineError::Input(InputError::Image(_)))
    ));
}
