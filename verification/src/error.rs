//! The error type of the library.

use vstd::prelude::*;

verus! {

/// Errors produced by the library (named `KlippoError` so that it does not
/// share its name with the `regex` crate's `Error`).
#[derive(Debug)]
pub enum KlippoError {
    /// An action's regex does not compile.
    Regex(regex::Error),
    /// An action's command template cannot be split into words.
    ActionParse(String),
    /// Raw RGBA clipboard pixels that do not fill the stated dimensions.
    InvalidImage,
    /// An image could not be encoded.
    Image(image::ImageError),
}

} // verus!
