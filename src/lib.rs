//! Client library for the Typecast text-to-speech HTTP API.
//!
//! The library holds the request and response models with their exact wire
//! forms, the classification of API errors, and the parts of the client that
//! build URLs and assemble results. Sending requests and reading responses is
//! left to the transport layer around it.
pub mod client;
pub mod errors;
pub mod models;

pub use client::{ClientConfig, TypecastClient, DEFAULT_BASE_URL, DEFAULT_TIMEOUT_SECS};
pub use errors::{Result, TypecastError};
pub use models::{
    Age, AudioFormat, EmotionPreset, ErrorResponse, Gender, ModelInfo, ModelInfoWire, Output,
    OutputWire, PresetPrompt, Prompt, PromptWire, SmartPrompt, TTSModel, TTSPrompt, TTSRequest,
    TTSRequestWire, TTSResponse, UseCase, VoiceV2, VoiceV2Wire, VoicesV2Filter,
};
