//! Verified core of the Moonshine Voice bindings: option sets, request
//! building, result decoding and session state for the speech-to-text and
//! text-to-speech engines.
//!
//! The native engine itself is driven by the caller. Every operation here
//! checks its inputs and state and yields either the exact arguments of the
//! native call to make or the error the operation returns; the status codes
//! and buffers that come back are turned into results by the functions of
//! [`error`] and [`tts`].

pub mod audio;
pub mod cstring;
pub mod decimal;
pub mod deps;
pub mod error;
pub mod json;
pub mod options;
pub mod session;
pub mod sync;
pub mod text;
pub mod transcriber;
pub mod tts;

pub use deps::{plan_diarization_downloads, stt_dependencies_request, SttDependenciesOptions};
pub use error::{check_handle, check_status, finish_text_output, Error, MissingText, Result};
pub use text::join_line_texts;
pub use transcriber::{ModelArch, OwnedTranscriberStream, Transcriber, TranscriberOptions, TranscriberStream};
pub use tts::{GraphemeToPhonemizer, TtsOptions, TtsSynthesizer};
