//! What a transcription backend hands back.
//!
//! The backends themselves live with the caller; the library only fixes the
//! shape of their result. Durations are nanoseconds.

use crate::install::{expand_tilde, spec_expand_tilde};
use crate::status::{join_path, spec_join_path};
use crate::text::{chars_of, str_view};
use vstd::prelude::*;

verus! {

/// Shortest time in seconds that a request to a backend is given.
pub const MIN_REQUEST_TIMEOUT_SECS: u64 = 5;

/// What a backend measured while it worked.
#[derive(Debug, Clone, Copy, PartialEq, Eq, Structural)]
pub struct BackendMetrics {
    pub encode_duration: Option<u64>,
    pub encoded_bytes: Option<usize>,
    pub upload_duration: Option<u64>,
    pub response_duration: Option<u64>,
    pub transcription_duration: u64,
}

impl Default for BackendMetrics {
    fn default() -> (out: Self)
        ensures
            out == (BackendMetrics {
                encode_duration: None,
                encoded_bytes: None,
                upload_duration: None,
                response_duration: None,
                transcription_duration: 0,
            }),
    {
        BackendMetrics {
            encode_duration: None,
            encoded_bytes: None,
            upload_duration: None,
            response_duration: None,
            transcription_duration: 0,
        }
    }
}

/// Text with the metrics of the backend that produced it.
#[derive(Debug, Clone)]
pub struct TranscriptionResult {
    pub text: String,
    pub metrics: BackendMetrics,
}

/// The backend that turns audio into text.
#[derive(Debug, Clone, Copy, PartialEq, Eq, Structural)]
pub enum TranscriptionProvider {
    WhisperCpp,
    Groq,
    Gemini,
    Parakeet,
}

/// The time in seconds that a request to a backend is given: what is
/// configured, but no less than five seconds.
pub fn request_timeout_secs(configured: u64) -> (out: u64)
    ensures
        out == if configured < MIN_REQUEST_TIMEOUT_SECS {
            MIN_REQUEST_TIMEOUT_SECS
        } else {
            configured
        },
{
    if configured < MIN_REQUEST_TIMEOUT_SECS {
        MIN_REQUEST_TIMEOUT_SECS
    } else {
        configured
    }
}

/// The directory of a model: the configured path with a leading `~/`
/// expanded and, where it is relative, taken below the data directory of the
/// program if there is one.
pub open spec fn spec_model_dir(
    configured: Seq<char>,
    home: Option<Seq<char>>,
    data_dir: Option<Seq<char>>,
) -> Seq<char> {
    let expanded = spec_expand_tilde(configured, home);
    if (expanded.len() == 0 || expanded[0] != '/') && data_dir is Some {
        spec_join_path(data_dir->0, expanded)
    } else {
        expanded
    }
}

/// Resolves the directory of a model; see [`spec_model_dir`].
pub fn model_dir(configured: &str, home: Option<&str>, data_dir: Option<&str>) -> (out: String)
    ensures
        out@ == spec_model_dir(configured@, str_view(home), str_view(data_dir)),
{
    let expanded = expand_tilde(configured, home);
    let chars = chars_of(expanded.as_str());
    let relative = chars.len() == 0 || chars[0] != '/';
    match data_dir {
        Some(base) => {
            if relative {
                join_path(base, expanded.as_str())
            } else {
                expanded
            }
        },
        None => expanded,
    }
}

/// Which files of a Parakeet model are there.
#[derive(Debug, Clone, Copy, PartialEq, Eq, Structural)]
pub struct ParakeetFiles {
    /// `encoder-model.onnx`
    pub encoder_model: bool,
    /// `encoder.onnx`
    pub encoder: bool,
    /// `decoder_joint-model.onnx`
    pub decoder_joint_model: bool,
    /// `decoder_joint.onnx`
    pub decoder_joint: bool,
    /// `vocab.txt`
    pub vocab: bool,
}

/// The part of a Parakeet model that is missing.
#[derive(Debug, Clone, Copy, PartialEq, Eq, Structural)]
pub enum ParakeetModelError {
    EncoderMissing,
    DecoderMissing,
    VocabMissing,
}

/// Checks that a Parakeet model is complete: an encoder and a decoder under
/// either of their names, and the vocabulary. The first part that is
/// missing, in that order, is reported.
pub fn check_parakeet_model(files: ParakeetFiles) -> (out: Result<(), ParakeetModelError>)
    ensures
        out == if !(files.encoder_model || files.encoder) {
            Err::<(), ParakeetModelError>(ParakeetModelError::EncoderMissing)
        } else if !(files.decoder_joint_model || files.decoder_joint) {
            Err::<(), ParakeetModelError>(ParakeetModelError::DecoderMissing)
        } else if !files.vocab {
            Err::<(), ParakeetModelError>(ParakeetModelError::VocabMissing)
        } else {
            Ok::<(), ParakeetModelError>(())
        },
{
    if !(files.encoder_model || files.encoder) {
        Err(ParakeetModelError::EncoderMissing)
    } else if !(files.decoder_joint_model || files.decoder_joint) {
        Err(ParakeetModelError::DecoderMissing)
    } else if !files.vocab {
        Err(ParakeetModelError::VocabMissing)
    } else {
        Ok(())
    }
}

} // verus!
