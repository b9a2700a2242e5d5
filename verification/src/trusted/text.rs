//! UTF-8 validation as the standard library performs it.

use vstd::prelude::*;
use vstd::string::*;
use vstd::utf8::*;

verus! {

/// The error of `core::str::from_utf8`; nothing is read from it.
#[verifier::external_type_specification]
#[verifier::external_body]
pub struct ExUtf8Error(core::str::Utf8Error);

/// `core::str::from_utf8` succeeds exactly on well-formed UTF-8, and the
/// string slice it returns covers the very bytes it was given.
pub assume_specification[ core::str::from_utf8 ](v: &[u8]) -> (validated: Result<
    &str,
    core::str::Utf8Error,
>)
    ensures
        validated is Ok <==> valid_utf8(v@),
        validated matches Ok(text) ==> text.spec_bytes() == v@,
;

} // verus!
