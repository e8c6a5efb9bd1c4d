//! The tokenizer dependency of the hybrid policy.
//!
//! Tokenization is an external collaborator: the router injects an
//! implementation at policy construction. Nothing is promised of what a
//! tokenizer returns; the policy degrades to random fallback when encoding
//! fails, so its contracts hold for every implementation.

use vstd::prelude::*;

verus! {

/// Why a request text could not be encoded.
pub struct TokenizeError {
    pub message: String,
}

/// Converts request text into a token-id sequence; fallible. Implemented
/// by the surrounding router (or a test double) and injected through the
/// factory's tokenizer-aware entry points.
pub trait Tokenizer {
    /// Encode `text` into token ids, or report why that failed.
    fn encode(&self, text: &str) -> Result<Vec<u32>, TokenizeError>;
}

/// The tokenizer of the factory paths on which none is available: every
/// encode fails, so a policy built on such a path can never take the
/// remote-affinity branch through tokenization.
pub struct NoTokenizer;

impl Tokenizer for NoTokenizer {
    fn encode(&self, _text: &str) -> Result<Vec<u32>, TokenizeError> {
        Err(TokenizeError { message: String::new() })
    }
}

} // verus!
