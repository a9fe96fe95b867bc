//! The failures that the engine reports, by kind.

use vstd::prelude::*;
use crate::vision::GeometryError;

verus! {

/// A model could not be loaded. The engine stays as it was.
#[derive(Debug, Clone, PartialEq, Eq)]
pub enum LoadError {
    /// The file is missing or cannot be read.
    Unreadable(String),
    /// The file is not in a format that the engine knows.
    UnrecognizedFormat(String),
    /// The tensors in the file do not fit the architecture that was asked for.
    ArchitectureMismatch(String),
}

/// A request was refused before any forward computation ran.
#[derive(Debug, Clone, PartialEq, Eq)]
pub enum InputError {
    /// The prompt has more tokens than the engine accepts.
    PromptTooLong { len: usize, max: usize },
    /// The prompt encodes to no token at all.
    EmptyPrompt,
    /// The tokenizer could not encode the prompt.
    Encoding(String),
    /// The bytes do not encode an image.
    ImageDecoding(String),
    /// The image cannot be brought to the size of the model.
    Image(GeometryError),
    /// The engine was set up without image preprocessing.
    ImagesNotConfigured,
}

/// A request failed while it ran. The loaded model stays usable.
#[derive(Debug, Clone, PartialEq, Eq)]
pub enum RuntimeError {
    /// No model has been loaded into the engine.
    NotInitialized,
    /// The engine was loaded without a tokenizer.
    TokenizerMissing,
    /// The tensor backend reported a fault.
    Backend(String),
    /// The tokenizer could not decode the generated tokens.
    Decoding(String),
    /// The generation was handed a reply it was not waiting for.
    OutOfTurn,
}

/// Any failure of the engine.
#[derive(Debug, Clone, PartialEq, Eq)]
pub enum EngineError {
    Load(LoadError),
    Input(InputError),
    Runtime(RuntimeError),
}

impl EngineError {
    /// The failure is an image that cannot be read or brought to size, or a
    /// fault of the tensor backend.
    pub open spec fn is_image_fault(self) -> bool {
        ||| self matches EngineError::Input(InputError::Image(_))
        ||| self matches EngineError::Input(InputError::ImageDecoding(_))
        ||| self.is_backend_fault()
    }

    /// The failure is a fault of the tensor backend.
    pub open spec fn is_backend_fault(self) -> bool {
        self matches EngineError::Runtime(RuntimeError::Backend(_))
    }

    /// The failure is one that a generation on a loaded engine ends with: a
    /// prompt that is refused, a fault of the backend, or generated tokens
    /// that cannot be decoded.
    pub open spec fn is_generation_fault(self) -> bool {
        ||| self matches EngineError::Input(InputError::PromptTooLong { .. })
        ||| self matches EngineError::Input(InputError::EmptyPrompt)
        ||| self matches EngineError::Input(InputError::Encoding(_))
        ||| self matches EngineError::Runtime(RuntimeError::Backend(_))
        ||| self matches EngineError::Runtime(RuntimeError::Decoding(_))
    }

    /// The failure is none of loading, and if it says that the prompt is too
    /// long, then the prompt has more than `max` tokens and `max` is the
    /// limit it names.
    pub open spec fn refuses_only_above(self, max: usize) -> bool {
        &&& !(self is Load)
        &&& self matches EngineError::Input(InputError::PromptTooLong { len, max: limit })
            ==> limit == max && len > max
    }
}

} // verus!
