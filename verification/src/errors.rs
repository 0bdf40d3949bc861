//! Error taxonomy of the engine core. Every failure is surfaced to the host
//! boundary as a distinct variant; nothing is swallowed or retried.

use vstd::prelude::*;

verus! {

/// A field of the configuration document, named in malformedness reports.
#[derive(Debug, Clone, Copy, PartialEq, Eq, Structural)]
pub enum ConfigField {
    ModelType,
    HiddenSize,
    NumHiddenLayers,
    VocabSize,
    Architectures,
}

/// Failure to interpret a configuration document.
#[derive(Debug, Clone, Copy, PartialEq, Eq, Structural)]
pub enum ConfigError {
    /// The discriminator named an architecture family this build does not know.
    UnsupportedArchitecture,
    /// A required field was absent or had the wrong shape; carries the field name.
    Malformed(ConfigField),
}

/// Failure to open the weight files of a model directory.
#[derive(Debug, PartialEq, Eq)]
pub enum IoError {
    /// The directory holds no recognized weight container file.
    NotFound,
    /// A file-system error while reading; carries a description.
    Unreadable(String),
}

/// Failure to construct a model from a parsed configuration.
#[derive(Debug, PartialEq, Eq)]
pub enum BuildError {
    /// The requested device kind is not compiled into this build.
    UnsupportedDevice,
    /// The family implementation rejected the weights; carries its message.
    Construction(String),
}

/// Misuse of an opaque handle by the host caller.
#[derive(Debug, Clone, Copy, PartialEq, Eq, Structural)]
pub enum HandleError {
    /// The handle was never issued by the registry.
    Unknown,
    /// The slot holds a value of a different kind than the caller asked for.
    TypeMismatch,
    /// The slot was already destroyed.
    UseAfterFree,
}

/// Failure of an inference request.
#[derive(Debug, PartialEq, Eq)]
pub enum InferError {
    /// Fewer than the two mandatory input handles were supplied.
    MissingRequiredInput,
    /// A model or tensor handle did not resolve; carries the registry's error.
    InvalidHandle(HandleError),
    /// The forward pass itself failed; carries its message.
    Computation(String),
}

/// Any failure of the whole load path, as the host boundary sees it.
#[derive(Debug, PartialEq, Eq)]
pub enum LoadError {
    Config(ConfigError),
    Io(IoError),
    Build(BuildError),
}

} // verus!
