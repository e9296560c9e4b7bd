//! Intent recognition, as far as the pipeline sees it.

use vstd::prelude::*;

verus! {

/// Why a recognizer failed on an utterance, in its own words.
#[derive(Clone, Debug, PartialEq, Eq)]
pub struct RecognizerError {
    pub message: String,
}

} // verus!
