//! Safe access to the UDPipe engine: tokenization, tagging, lemmatization and
//! dependency parsing, with results as owned values.
//!
//! The engine itself is reached by the caller; this crate holds the rules
//! around it: which inputs can be handed over, how the engine's fields become
//! owned words and sentences, how its failures become errors, how a streaming
//! parse moves from sentence to sentence, and which models exist.
pub mod catalog;
pub mod error;
pub mod input;
pub mod sentence;
pub mod stream;
pub mod text;
pub mod word;

pub use catalog::{
    check_payload, download_model, model_filename, ModelDownload, AVAILABLE_MODELS,
    MODEL_BASE_URL,
};
pub use error::{ErrorKind, NativeCall, UdpipeError};
pub use sentence::{
    child_array_len, words_from_raw, MultiwordToken, RawMultiwordToken, RawSentence, RawWord,
    Sentence,
};
pub use input::{check_path, check_text};
pub use stream::{ParseState, PullOutcome, Pulled, SentenceStream};
pub use word::Word;
