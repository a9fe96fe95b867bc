use ai_base::error::{EngineError, InputError};
use ai_base::qwen3vl::{
    Qwen3VLConfig, Qwen3VLProcessor, Qwen3VLTextConfig, Qwen3VLVisionConfig,
};
use ai_base::vision::decode;
use std::io::Cursor;
use ai_base::tensor_utils::bitor_tensor;
use ai_base::vision::{
    colour_tensor, img_transform, normalize_image, preprocess_images_batch, resized, widen,
    GeometryError, ImagePreprocessConfig, ImagePreprocessor, ResizeFilter, VisionGridTHW,
};
use candle_core::{DType, Device, Tensor};
use image::{DynamicImage, GenericImageView, Rgb, RgbImage, RgbaImage};

fn plain(width: u32, height: u32, colour: [u8; 3]) -> DynamicImage {
    DynamicImage::ImageRgb8(RgbImage::from_pixel(width, height, Rgb(colour)))
}

fn close(got: f32, want: f32) -> bool {
    (got - want).abs() < 1e-4
}

#[test]
fn bytes_become_numbers() {
    assert_eq!(widen(&vec![0, 7, 255]), vec![0, 7, 255]);
    assert_eq!(widen(&vec![]), Vec::<u32>::new());
}

#[test]
fn colours_are_laid_out_by_row_column_and_channel() {
    let image = DynamicImage::ImageRgb8(RgbImage::from_fn(3, 2, |x, y| {
        Rgb([x as u8, y as u8, (10 * x + y) as u8])
    }));
    let t = colour_tensor(&image, &Device::Cpu).unwrap();
    assert_eq!(t.dims(), &[2, 3, 3]);
    let rows = t.to_vec3::<f32>().unwrap();
    assert_eq!(rows[0][2], vec![2.0, 0.0, 20.0]);
    assert_eq!(rows[1][0], vec![0.0, 1.0, 1.0]);
    let with_alpha = DynamicImage::ImageRgba8(RgbaImage::from_pixel(2, 2, image::Rgba([1, 2, 3, 4])));
    let t = colour_tensor(&with_alpha, &Device::Cpu).unwrap();
    assert_eq!(t.dims(), &[2, 2, 3]);
    assert_eq!(t.to_vec3::<f32>().unwrap()[1][1], vec![1.0, 2.0, 3.0]);
}

#[test]
fn colours_are_normalised_by_channel() {
    let image = plain(2, 3, [0, 255, 51]);
    let colours = colour_tensor(&image, &Device::Cpu).unwrap();
    let mean = [500_000, 250_000, 0];
    let std = [250_000, 500_000, 100_000];
    let normal = normalize_image(&colours, &mean, &std, 1_000_000).unwrap();
    assert_eq!(normal.dims(), &[3, 3, 2]);
    let channels = normal.to_vec3::<f32>().unwrap();
    for row in &channels[0] {
        for v in row {
            assert!(close(*v, (0.0 - 0.5) / 0.25));
        }
    }
    for row in &channels[1] {
        for v in row {
            assert!(close(*v, (1.0 - 0.25) / 0.5));
        }
    }
    for row in &channels[2] {
        for v in row {
            assert!(close(*v, 0.2 / 0.1));
        }
    }
    let flat = Tensor::zeros((2, 2), DType::F32, &Device::Cpu).unwrap();
    assert!(normalize_image(&flat, &mean, &std, 1_000_000).is_err());
}

#[test]
fn images_are_brought_to_the_square_of_the_model() {
    let preprocessor = ImagePreprocessor::new(ImagePreprocessConfig {
        image_size: 8,
        mean: [485_000, 456_000, 406_000],
        std: [229_000, 224_000, 225_000],
    });
    let image = plain(40, 20, [255, 0, 128]);
    let t = preprocessor.preprocess(&image, &Device::Cpu).unwrap();
    assert_eq!(t.dims(), &[1, 3, 8, 8]);
    let values = t.squeeze(0).unwrap().to_vec3::<f32>().unwrap();
    for row in &values[0] {
        for v in row {
            assert!(close(*v, (1.0 - 0.485) / 0.229));
        }
    }
    for row in &values[1] {
        for v in row {
            assert!(close(*v, (0.0 - 0.456) / 0.224));
        }
    }
    for row in &values[2] {
        for v in row {
            assert!(close(*v, (128.0 / 255.0 - 0.406) / 0.225));
        }
    }
    let nothing = DynamicImage::ImageRgb8(RgbImage::new(0, 5));
    assert_eq!(
        preprocessor.preprocess(&nothing, &Device::Cpu).err(),
        Some(EngineError::Input(InputError::Image(GeometryError::EmptyImage)))
    );
    let default = ImagePreprocessor::default();
    assert_eq!(default.preprocess(&image, &Device::Cpu).unwrap().dims(), &[1, 3, 448, 448]);
}

#[test]
fn the_middle_of_the_image_is_kept() {
    let preprocessor = ImagePreprocessor::new(ImagePreprocessConfig {
        image_size: 2,
        mean: [0, 0, 0],
        std: [1_000_000, 1_000_000, 1_000_000],
    });
    // black at the left and at the right, white in the middle
    let image = DynamicImage::ImageRgb8(RgbImage::from_fn(6, 2, |x, _| {
        if x == 2 || x == 3 {
            Rgb([255, 255, 255])
        } else {
            Rgb([0, 0, 0])
        }
    }));
    let t = preprocessor.preprocess(&image, &Device::Cpu).unwrap();
    assert_eq!(t.dims(), &[1, 3, 2, 2]);
    for v in t.flatten_all().unwrap().to_vec1::<f32>().unwrap() {
        assert!(close(v, 1.0));
    }
}

#[test]
fn several_images_make_one_batch() {
    let config = ImagePreprocessConfig { image_size: 4, mean: [0, 0, 0], std: [1, 1, 1] };
    let images = vec![plain(9, 5, [1, 2, 3]), plain(4, 4, [4, 5, 6]), plain(3, 8, [7, 8, 9])];
    let batch = preprocess_images_batch(&images, config, &Device::Cpu).unwrap();
    assert_eq!(batch.dims(), &[3, 1, 3, 4, 4]);
    assert!(preprocess_images_batch(&Vec::new(), config, &Device::Cpu).is_err());
    let broken = vec![plain(9, 5, [1, 2, 3]), DynamicImage::ImageRgb8(RgbImage::new(0, 0))];
    assert!(preprocess_images_batch(&broken, config, &Device::Cpu).is_err());
}

#[test]
fn images_are_resized_within_limits() {
    let image = plain(10, 10, [5, 5, 5]);
    let r = resized(&image, 20, 30, ResizeFilter::CatmullRom);
    assert_eq!(r.unwrap().dimensions(), (20, 30));
    let r = resized(&image, 7, 3, ResizeFilter::Lanczos3);
    assert_eq!(r.unwrap().dimensions(), (7, 3));
    assert!(matches!(
        resized(&image, 0, 30, ResizeFilter::Lanczos3),
        Err(EngineError::Input(InputError::Image(GeometryError::EmptyImage)))
    ));
    assert!(matches!(
        resized(&image, 100_000, 100_000, ResizeFilter::Lanczos3),
        Err(EngineError::Input(InputError::Image(GeometryError::TooLarge)))
    ));
    // the largest image has 8192 by 8192 pixels
    assert!(matches!(
        resized(&image, 8193, 8192, ResizeFilter::Lanczos3),
        Err(EngineError::Input(InputError::Image(GeometryError::TooLarge)))
    ));
    // a wide image is too large on the way to a tall one
    let wide = plain(70_000, 1, [5, 5, 5]);
    assert!(matches!(
        resized(&wide, 1, 1000, ResizeFilter::CatmullRom),
        Err(EngineError::Input(InputError::Image(GeometryError::TooLarge)))
    ));
    assert_eq!(resized(&wide, 7, 9, ResizeFilter::CatmullRom).unwrap().dimensions(), (7, 9));
}

#[test]
fn images_are_transformed_with_given_statistics() {
    let image = plain(3, 2, [255, 0, 51]);
    let mean = Tensor::new(&[0.5f32, 0.0, 0.1], &Device::Cpu).unwrap().reshape((3, 1, 1)).unwrap();
    let std = Tensor::new(&[0.5f32, 1.0, 0.1], &Device::Cpu).unwrap().reshape((3, 1, 1)).unwrap();
    let t = img_transform(&image, &mean, &std, &Device::Cpu, DType::F32).unwrap();
    assert_eq!(t.dims(), &[3, 2, 3]);
    let channels = t.to_vec3::<f32>().unwrap();
    assert!(close(channels[0][0][0], 1.0));
    assert!(close(channels[1][1][2], 0.0));
    assert!(close(channels[2][0][1], 1.0));
    let doubles = img_transform(&image, &mean, &std, &Device::Cpu, DType::F64).unwrap();
    assert_eq!(doubles.dtype(), DType::F64);
}

fn sizes() -> Qwen3VLConfig {
    Qwen3VLConfig {
        vision_config: Qwen3VLVisionConfig {
            depth: 1,
            hidden_size: 4,
            in_channels: 3,
            num_heads: 2,
            out_hidden_size: 3,
            patch_size: 14,
            spatial_merge_size: 2,
            temporal_patch_size: 2,
        },
        text_config: Qwen3VLTextConfig { vocab_size: 6, hidden_size: 3, head_dim: 4, rope_theta: 10_000 },
        image_token_id: 5,
    }
}

#[test]
fn the_processor_gives_pixels_and_their_grid() {
    let processor = match Qwen3VLProcessor::new(&sizes(), &Device::Cpu) {
        Ok(p) => p,
        Err(e) => panic!("the processor is made: {:?}", e),
    };
    let image = plain(512, 512, [123, 117, 104]);
    let done = match processor.process_image(&image, &Device::Cpu) {
        Ok(done) => done,
        Err(e) => panic!("the image is processed: {:?}", e),
    };
    assert_eq!(done.pixel_values.dims(), &[1, 3, 504, 504]);
    assert_eq!(done.image_grid_thw.dims(), &[1, 3]);
    assert_eq!(done.image_grid_thw.to_vec2::<u32>().unwrap(), vec![vec![1, 18, 18]]);
    assert_eq!(done.layout.grid, VisionGridTHW { temporal: 1, height: 18, width: 18 });
    let first = done.pixel_values.flatten_all().unwrap().to_vec1::<f32>().unwrap()[0];
    assert!(close(first, (123.0 / 255.0 - 0.48145466) / 0.26862954));
    let wide = plain(100, 30, [0, 0, 0]);
    let done = match processor.process_image(&wide, &Device::Cpu) {
        Ok(done) => done,
        Err(e) => panic!("the image is processed: {:?}", e),
    };
    assert_eq!(done.pixel_values.dims(), &[1, 3, 28, 112]);
    assert_eq!(done.image_grid_thw.to_vec2::<u32>().unwrap(), vec![vec![1, 1, 4]]);
    let patches = sizes().vision_config.patchify(
        &done.pixel_values.squeeze(0).unwrap(),
        &done.layout.grid,
    );
    assert_eq!(patches.unwrap().dims(), &[16, 3 * 2 * 14 * 14]);
    let nothing = DynamicImage::ImageRgb8(RgbImage::new(0, 0));
    assert!(matches!(
        processor.process_image(&nothing, &Device::Cpu),
        Err(EngineError::Input(InputError::Image(GeometryError::EmptyImage)))
    ));
}

#[test]
fn either_of_two_masks_sets_an_entry() {
    let a = Tensor::new(&[0f32, 1.0, 0.0, 2.0], &Device::Cpu).unwrap();
    let b = Tensor::new(&[0f32, 0.0, 3.0, 4.0], &Device::Cpu).unwrap();
    let either = bitor_tensor(&a, &b).unwrap();
    assert_eq!(either.dtype(), DType::F32);
    assert_eq!(either.to_vec1::<f32>().unwrap(), vec![0.0, 1.0, 1.0, 1.0]);
    let whole = Tensor::new(&[0u32, 0, 5], &Device::Cpu).unwrap();
    let other = Tensor::new(&[0u32, 1, 0], &Device::Cpu).unwrap();
    assert_eq!(bitor_tensor(&whole, &other).unwrap().to_vec1::<u32>().unwrap(), vec![0, 1, 1]);
    let short = Tensor::new(&[0u32, 1], &Device::Cpu).unwrap();
    assert!(bitor_tensor(&whole, &short).is_err());
}

fn encoded(image: &DynamicImage) -> Vec<u8> {
    let mut bytes = Cursor::new(Vec::new());
    image.write_to(&mut bytes, image::ImageFormat::Png).unwrap();
    bytes.into_inner()
}

#[test]
fn encoded_images_are_decoded_and_prepared() {
    let image = DynamicImage::ImageRgb8(RgbImage::from_fn(5, 4, |x, y| Rgb([x as u8, y as u8, 7])));
    let bytes = encoded(&image);
    let back = match decode(&bytes) {
        Ok(image) => image,
        Err(e) => panic!("the bytes are an image: {:?}", e),
    };
    assert_eq!(back.dimensions(), (5, 4));
    assert_eq!(back.to_rgb8().get_pixel(3, 2), &Rgb([3, 2, 7]));
    assert!(matches!(
        decode(b"no image at all"),
        Err(EngineError::Input(InputError::ImageDecoding(_)))
    ));
    assert!(matches!(decode(&[]), Err(EngineError::Input(InputError::ImageDecoding(_)))));
    let preprocessor = ImagePreprocessor::new(ImagePreprocessConfig {
        image_size: 3,
        mean: [0, 0, 0],
        std: [1_000_000, 1_000_000, 1_000_000],
    });
    let t = preprocessor.preprocess_from_bytes(&bytes, &Device::Cpu).unwrap();
    assert_eq!(t.dims(), &[1, 3, 3, 3]);
    assert!(matches!(
        preprocessor.preprocess_from_bytes(b"nothing", &Device::Cpu),
        Err(EngineError::Input(InputError::ImageDecoding(_)))
    ));
}
