//! Hashing of identifiers.
//!
//! Handles are equal when their remote identifiers are, whatever their caches
//! hold, and they hash as their identifiers do.

use vstd::prelude::*;

verus! {

/// `String::hash` of the standard library feeds the text to the hasher.
/// Nothing is claimed about the state of the hasher afterwards.
pub assume_specification<H: core::hash::Hasher>[ <String as core::hash::Hash>::hash ](
    text: &String,
    state: &mut H,
);

} // verus!
