//! The two kinds of failure that come from outside this library. Both are
//! declared here as they are, and nothing is claimed of either: a value is
//! carried, handed on, and asked for its text, and what it answers is its own.

use scroll::Error as ScrollError;
use vstd::prelude::*;

verus! {

/// `scroll::Error`, the failure of a read or write at an offset in a byte
/// buffer. Its inside is not looked into.
#[verifier::external_type_specification]
#[verifier::external_body]
pub struct ExScrollError(ScrollError);

/// `std::io::Error`, the failure of the source that supplies the bytes. Its
/// inside is not looked into either.
#[verifier::external_type_specification]
#[verifier::external_body]
pub struct ExIoError(std::io::Error);

} // verus!
