//! Which origins may call from another site.

use crate::text::{ends_with, is_prefix, is_suffix, starts_with};
use vstd::prelude::*;
use vstd::string::*;
use vstd::utf8::*;

verus! {

/// Hosts under this name may call.
pub const ALLOWED_SUFFIX: &'static str = ".dns.podman";

/// Origins that begin like this may call.
pub const ALLOWED_PREFIX: &'static str = "https://localhost:3333";

/// Whether requests from `origin` are allowed.
pub open spec fn allowed(origin: Seq<u8>) -> bool {
    is_suffix(encode_utf8(ALLOWED_SUFFIX@), origin) || is_prefix(
        encode_utf8(ALLOWED_PREFIX@),
        origin,
    )
}

/// Whether requests from `origin` are allowed: its host lies under
/// [`ALLOWED_SUFFIX`], or it begins with [`ALLOWED_PREFIX`].
pub fn origin_is_allowed(origin: &[u8]) -> (verdict: bool)
    ensures
        verdict == allowed(origin@),
{
    ends_with(origin, ALLOWED_SUFFIX.as_bytes()) || starts_with(origin, ALLOWED_PREFIX.as_bytes())
}

} // verus!
