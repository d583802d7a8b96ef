//! The error model of the correlation pipeline: a closed enumeration of
//! failure kinds, its human-readable rendering, and the result alias used by
//! every fallible operation.

use vstd::prelude::*;
use vstd::string::StringExecFns;

verus! {

/// The closed set of failures the correlation pipeline can report.
///
/// `FftProcessing` carries a human-readable diagnostic describing a failure
/// inside the frequency-domain transform stage (invalid input length,
/// numerical failure, backend error). The payload is opaque to this crate:
/// it is never parsed, truncated or otherwise transformed, only carried and
/// rendered verbatim.
#[derive(Debug)]
pub enum FftCorrelationError {
    FftProcessing(String),
}

/// The return contract of every fallible operation in the correlation
/// pipeline: either a success value or exactly one classified error.
/// Partial success is not representable.
pub type Result<T> = core::result::Result<T, FftCorrelationError>;

impl FftCorrelationError {
    /// The diagnostic message carried by the error.
    pub open spec fn message(&self) -> Seq<char> {
        match self {
            FftCorrelationError::FftProcessing(msg) => msg@,
        }
    }

    /// What rendering the error produces: the fixed prefix
    /// `"FFT processing error: "` followed by the message verbatim.
    pub open spec fn rendered(&self) -> Seq<char> {
        "FFT processing error: "@ + self.message()
    }

    /// Render the error for human consumption.
    ///
    /// Total over every payload — empty, non-ASCII, or arbitrarily long —
    /// and deterministic: the result is always the fixed prefix followed by
    /// the message, with no truncation, escaping or localization.
    pub fn to_display_string(&self) -> (r: String)
        ensures
            r@ == self.rendered(),
    {
        match self {
            FftCorrelationError::FftProcessing(msg) => {
                let mut r: String = String::from_str("FFT processing error: ");
                r.append(msg.as_str());
                r
            }
        }
    }
}

/// Law: rendering concatenates and nothing more. The rendered text is
/// exactly the fixed prefix followed by the message: it is as long as the
/// two together, opens with the prefix character for character, and carries
/// every character of the message unchanged at its offset past the prefix.
pub proof fn lemma_rendered_is_prefix_then_message(e: &FftCorrelationError)
    ensures
        e.rendered().len() == "FFT processing error: "@.len() + e.message().len(),
        forall|i: int|
            0 <= i < "FFT processing error: "@.len() ==> e.rendered()[i] == "FFT processing error: "@[i],
        forall|i: int|
            0 <= i < e.message().len()
                ==> e.rendered()["FFT processing error: "@.len() + i] == e.message()[i],
{
}

} // verus!
