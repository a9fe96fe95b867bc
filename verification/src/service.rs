//! The slots that hold the loaded engines of the application.
//!
//! A service holds at most one engine. The application keeps each service
//! behind one lock, so that requests on an engine follow one another.

use image::DynamicImage;
use vstd::prelude::*;
use crate::decoding::is_generated_text;
use crate::engine::InferenceEngine;
use crate::error::{EngineError, InputError, RuntimeError};
use crate::gguf::GGUFInferenceEngine;

verus! {

/// The slot for the dense engine.
pub struct InferenceService {
    engine: Option<InferenceEngine>,
}

impl InferenceService {
    /// An engine has been loaded.
    pub closed spec fn loaded(&self) -> bool {
        self.engine is Some
    }

    /// The engine in the slot, if there is one.
    pub closed spec fn spec_engine(&self) -> Option<InferenceEngine> {
        self.engine
    }

    /// The slot is loaded exactly if it holds an engine.
    pub proof fn lemma_loaded_holds_engine(&self)
        ensures
            self.loaded() == self.spec_engine() is Some,
    {
    }

    /// A service without an engine.
    pub fn new() -> (service: InferenceService)
        ensures
            !service.loaded(),
    {
        InferenceService { engine: None }
    }

    /// Puts a freshly loaded engine into the slot, in place of any other.
    pub fn install(&mut self, engine: InferenceEngine)
        ensures
            final(self).loaded(),
            final(self).spec_engine() == Some(engine),
    {
        self.engine = Some(engine);
    }

    /// Takes the outcome of loading an engine. A loaded engine goes into the
    /// slot, in place of any other. A failure is handed on and leaves the
    /// slot as it was: empty, or with the engine that was loaded before.
    pub fn settle(&mut self, outcome: Result<InferenceEngine, EngineError>) -> (r: Result<
        (),
        EngineError,
    >)
        ensures
            outcome is Ok ==> r is Ok && final(self).loaded(),
            outcome matches Ok(engine) ==> final(self).spec_engine() == Some(engine),
            outcome matches Err(e) ==> r == Err::<(), EngineError>(e) && *final(self) == *old(
                self,
            ),
    {
        match outcome {
            Ok(engine) => {
                self.engine = Some(engine);
                Ok(())
            },
            Err(e) => Err(e),
        }
    }

    /// Generates text on the loaded engine. Without an engine the request
    /// fails as not initialized.
    pub fn generate(&self, prompt: &str, max_tokens: usize) -> (r: Result<String, EngineError>)
        ensures
            !self.loaded() ==> r == Err::<String, EngineError>(
                EngineError::Runtime(RuntimeError::NotInitialized),
            ),
            r matches Ok(text) ==> self.spec_engine() matches Some(engine) && is_generated_text(
                engine.spec_tokenizer(),
                true,
                max_tokens as nat,
                text@,
            ),
            r matches Err(e) ==> !(e is Load) && (self.spec_engine() matches Some(engine)
                ==> e.refuses_only_above(engine.max_seq_len())),
            r matches Err(e) ==> if self.loaded() {
                e.is_generation_fault()
            } else {
                e == EngineError::Runtime(RuntimeError::NotInitialized)
            },
    {
        match &self.engine {
            None => Err(EngineError::Runtime(RuntimeError::NotInitialized)),
            Some(engine) => engine.generate(prompt, max_tokens),
        }
    }

    pub fn is_loaded(&self) -> (r: bool)
        ensures
            r == self.loaded(),
    {
        self.engine.is_some()
    }

    /// Generates text for a prompt and an image on the loaded engine. Without
    /// an engine the request fails as not initialized.
    pub fn generate_multimodal(&self, image: &DynamicImage, prompt: &str, max_tokens: usize) -> (r:
        Result<String, EngineError>)
        ensures
            !self.loaded() ==> r == Err::<String, EngineError>(
                EngineError::Runtime(RuntimeError::NotInitialized),
            ),
            r matches Ok(text) ==> self.spec_engine() matches Some(engine) && is_generated_text(
                engine.spec_tokenizer(),
                true,
                max_tokens as nat,
                text@,
            ) && engine.takes_images(),
            r matches Err(e) ==> !(e is Load) && (self.spec_engine() matches Some(engine)
                ==> e.refuses_only_above(engine.max_seq_len())),
            r matches Err(e) ==> match self.spec_engine() {
                Some(engine) => if engine.takes_images() {
                    e.is_generation_fault() || e.is_image_fault()
                } else {
                    e == EngineError::Input(InputError::ImagesNotConfigured)
                },
                None => e == EngineError::Runtime(RuntimeError::NotInitialized),
            },
    {
        match &self.engine {
            None => Err(EngineError::Runtime(RuntimeError::NotInitialized)),
            Some(engine) => engine.generate_multimodal(image, prompt, max_tokens),
        }
    }

    /// Generates text for a prompt and the image that the bytes encode on the
    /// loaded engine. Without an engine the request fails as not initialized.
    pub fn generate_multimodal_from_bytes(
        &self,
        image_data: &[u8],
        prompt: &str,
        max_tokens: usize,
    ) -> (r: Result<String, EngineError>)
        ensures
            !self.loaded() ==> r == Err::<String, EngineError>(
                EngineError::Runtime(RuntimeError::NotInitialized),
            ),
            r matches Ok(text) ==> self.spec_engine() matches Some(engine) && is_generated_text(
                engine.spec_tokenizer(),
                true,
                max_tokens as nat,
                text@,
            ) && engine.takes_images(),
            r matches Err(e) ==> !(e is Load) && (self.spec_engine() matches Some(engine)
                ==> e.refuses_only_above(engine.max_seq_len())),
            r matches Err(e) ==> match self.spec_engine() {
                Some(engine) => if engine.takes_images() {
                    e.is_generation_fault() || e.is_image_fault()
                } else {
                    e == EngineError::Input(InputError::ImagesNotConfigured)
                },
                None => e == EngineError::Runtime(RuntimeError::NotInitialized),
            },
    {
        match &self.engine {
            None => Err(EngineError::Runtime(RuntimeError::NotInitialized)),
            Some(engine) => engine.generate_multimodal_from_bytes(image_data, prompt, max_tokens),
        }
    }

    /// The loaded engine, if there is one.
    pub fn engine(&self) -> (r: Option<&InferenceEngine>)
        ensures
            r is Some == self.loaded(),
            r matches Some(engine) ==> self.spec_engine() == Some(*engine),
    {
        self.engine.as_ref()
    }
}

impl Default for InferenceService {
    fn default() -> (service: InferenceService)
        ensures
            !service.loaded(),
    {
        InferenceService::new()
    }
}

/// The slot for the quantized engine.
pub struct GGUFInferenceService {
    engine: Option<GGUFInferenceEngine>,
}

impl GGUFInferenceService {
    /// An engine has been loaded.
    pub closed spec fn loaded(&self) -> bool {
        self.engine is Some
    }

    /// The engine in the slot, if there is one.
    pub closed spec fn spec_engine(&self) -> Option<GGUFInferenceEngine> {
        self.engine
    }

    /// The engine in the slot, if there is one, is as `from_parts` hands
    /// engines out.
    pub closed spec fn wf(&self) -> bool {
        self.engine matches Some(engine) ==> engine.wf()
    }

    /// The slot is loaded exactly if it holds an engine.
    pub proof fn lemma_loaded_holds_engine(&self)
        ensures
            self.loaded() == self.spec_engine() is Some,
    {
    }

    /// A service without an engine.
    pub fn new() -> (service: GGUFInferenceService)
        ensures
            !service.loaded(),
            service.wf(),
    {
        GGUFInferenceService { engine: None }
    }

    /// Puts a freshly loaded engine into the slot, in place of any other.
    pub fn install(&mut self, engine: GGUFInferenceEngine)
        requires
            engine.wf(),
        ensures
            final(self).wf(),
            final(self).loaded(),
            final(self).spec_engine() == Some(engine),
    {
        self.engine = Some(engine);
    }

    /// Takes the outcome of loading an engine. A loaded engine goes into the
    /// slot, in place of any other. A failure is handed on and leaves the
    /// slot as it was: empty, or with the engine that was loaded before.
    pub fn settle(&mut self, outcome: Result<GGUFInferenceEngine, EngineError>) -> (r: Result<
        (),
        EngineError,
    >)
        requires
            old(self).wf(),
            outcome matches Ok(engine) ==> engine.wf(),
        ensures
            final(self).wf(),
            outcome is Ok ==> r is Ok && final(self).loaded(),
            outcome matches Ok(engine) ==> final(self).spec_engine() == Some(engine),
            outcome matches Err(e) ==> r == Err::<(), EngineError>(e) && *final(self) == *old(
                self,
            ),
    {
        match outcome {
            Ok(engine) => {
                self.engine = Some(engine);
                Ok(())
            },
            Err(e) => Err(e),
        }
    }

    /// Generates text on the loaded engine. Without an engine the request
    /// fails as not initialized.
    pub fn generate(&mut self, prompt: &str, max_tokens: usize) -> (r: Result<
        String,
        EngineError,
    >)
        requires
            old(self).wf(),
        ensures
            final(self).wf(),
            final(self).loaded() == old(self).loaded(),
            old(self).spec_engine() matches Some(before) ==> final(self).spec_engine() matches Some(
                after,
            ) && after.spec_tokenizer() == before.spec_tokenizer() && after.max_seq_len()
                == before.max_seq_len() && after.spec_device() == before.spec_device(),
            !old(self).loaded() ==> r == Err::<String, EngineError>(
                EngineError::Runtime(RuntimeError::NotInitialized),
            ),
            r matches Ok(text) ==> old(self).spec_engine() matches Some(engine)
                && engine.spec_tokenizer() matches Some(tokenizer) && is_generated_text(
                tokenizer,
                true,
                max_tokens as nat,
                text@,
            ),
            r matches Err(e) ==> !(e is Load) && (old(self).spec_engine() matches Some(engine) ==> (
            e.refuses_only_above(engine.max_seq_len())) && (engine.spec_tokenizer() is None ==> e
                == EngineError::Runtime(RuntimeError::TokenizerMissing))),
            r matches Err(e) ==> match old(self).spec_engine() {
                Some(engine) => if engine.spec_tokenizer() is Some {
                    e.is_generation_fault()
                } else {
                    e == EngineError::Runtime(RuntimeError::TokenizerMissing)
                },
                None => e == EngineError::Runtime(RuntimeError::NotInitialized),
            },
            r matches Err(EngineError::Input(_)) ==> *final(self) == *old(self),
    {
        match self.engine.take() {
            None => Err(EngineError::Runtime(RuntimeError::NotInitialized)),
            Some(mut engine) => {
                proof {
                    engine.lemma_has_its_tokenizer();
                }
                let r = engine.generate(prompt, max_tokens);
                self.engine = Some(engine);
                r
            },
        }
    }

    pub fn is_loaded(&self) -> (r: bool)
        ensures
            r == self.loaded(),
    {
        self.engine.is_some()
    }

    /// Tries one forward call on `seq_len` token ids on the loaded engine.
    /// Without an engine the request fails as not initialized.
    pub fn test_forward(&mut self, seq_len: usize) -> (r: Result<(), EngineError>)
        requires
            old(self).wf(),
        ensures
            final(self).wf(),
            final(self).loaded() == old(self).loaded(),
            old(self).spec_engine() matches Some(before) ==> final(self).spec_engine() matches Some(
                after,
            ) && after.spec_tokenizer() == before.spec_tokenizer() && after.max_seq_len()
                == before.max_seq_len() && after.spec_device() == before.spec_device(),
            !old(self).loaded() ==> r == Err::<(), EngineError>(
                EngineError::Runtime(RuntimeError::NotInitialized),
            ),
            old(self).loaded() && (seq_len == 0 || seq_len > u32::MAX) ==> r is Err,
            r matches Err(e) ==> old(self).loaded() ==> e.is_backend_fault(),
    {
        match self.engine.take() {
            None => Err(EngineError::Runtime(RuntimeError::NotInitialized)),
            Some(mut engine) => {
                let r = engine.test_forward(seq_len);
                self.engine = Some(engine);
                r
            },
        }
    }
}

impl Default for GGUFInferenceService {
    fn default() -> (service: GGUFInferenceService)
        ensures
            !service.loaded(),
            service.wf(),
    {
        GGUFInferenceService::new()
    }
}

} // verus!
