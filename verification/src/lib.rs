//! On-device inference for transformer language models, with and without
//! images: the generation loop and its sampler, rotary position embeddings,
//! the vision tower and the geometry of its images, and the catalogue of
//! models. The tensor arithmetic is done by the tensor backend; what is done
//! with its results, and in which shapes, is stated in contracts and proved.

pub mod backend;
pub mod decoding;
pub mod engine;
pub mod error;
pub mod generation;
pub mod gguf;
pub mod json;
pub mod logging;
pub mod models;
pub mod qwen3vl;
pub mod requests;
pub mod rope;
pub mod sampler;
pub mod service;
pub mod storage;
pub mod tensor_ops;
pub mod tensor_utils;
pub mod text;
pub mod vision;

pub use engine::{InferenceConfig, InferenceEngine};
pub use gguf::{GGUFConfig, GGUFInferenceEngine};
pub use vision::{ImagePreprocessConfig, ImagePreprocessor};
