//! Comparing and assembling text.

use vstd::prelude::*;
use vstd::string::*;
use vstd::utf8::*;

verus! {

/// Two character sequences with the same UTF-8 encoding are the same sequence.
pub proof fn lemma_encoding_is_injective(a: Seq<char>, b: Seq<char>)
    requires
        encode_utf8(a) == encode_utf8(b),
    ensures
        a == b,
{
    encode_utf8_decode_utf8(a);
    encode_utf8_decode_utf8(b);
}

/// Whether two byte slices hold the same bytes.
pub fn bytes_equal(a: &[u8], b: &[u8]) -> (same: bool)
    ensures
        same == (a@ == b@),
{
    if a.len() != b.len() {
        return false;
    }
    let mut i: usize = 0;
    while i < a.len()
        invariant
            a@.len() == b@.len(),
            i <= a@.len(),
            forall|j: int| 0 <= j < i ==> a@[j] == b@[j],
        decreases a@.len() - i,
    {
        if a[i] != b[i] {
            return false;
        }
        i += 1;
    }
    assert(a@ =~= b@);
    true
}

/// Whether `whole` begins with `part`.
pub open spec fn is_prefix(part: Seq<u8>, whole: Seq<u8>) -> bool {
    part.len() <= whole.len() && whole.subrange(0, part.len() as int) == part
}

/// Whether `whole` ends with `part`.
pub open spec fn is_suffix(part: Seq<u8>, whole: Seq<u8>) -> bool {
    part.len() <= whole.len() && whole.subrange(whole.len() - part.len(), whole.len() as int)
        == part
}

/// Whether `whole` holds `part` from position `at` on.
fn matches_at(whole: &[u8], at: usize, part: &[u8]) -> (found: bool)
    requires
        at + part@.len() <= whole@.len(),
    ensures
        found == (whole@.subrange(at as int, at + part@.len()) == part@),
{
    let end = whole.len();
    let mut i: usize = 0;
    while i < part.len()
        invariant
            at + part@.len() <= whole@.len() == end,
            i <= part@.len(),
            forall|j: int| 0 <= j < i ==> whole@[at + j] == part@[j],
        decreases part@.len() - i,
    {
        if whole[at + i] != part[i] {
            assert(whole@.subrange(at as int, at + part@.len())[i as int] != part@[i as int]);
            return false;
        }
        i += 1;
    }
    assert(whole@.subrange(at as int, at + part@.len()) =~= part@);
    true
}

/// Whether `whole` begins with `part`.
pub fn starts_with(whole: &[u8], part: &[u8]) -> (found: bool)
    ensures
        found == is_prefix(part@, whole@),
{
    part.len() <= whole.len() && matches_at(whole, 0, part)
}

/// Whether `whole` ends with `part`.
pub fn ends_with(whole: &[u8], part: &[u8]) -> (found: bool)
    ensures
        found == is_suffix(part@, whole@),
{
    part.len() <= whole.len() && matches_at(whole, whole.len() - part.len(), part)
}

/// Whether two strings hold the same characters.
pub fn str_equal(a: &str, b: &str) -> (same: bool)
    ensures
        same == (a@ == b@),
{
    let same = bytes_equal(a.as_bytes(), b.as_bytes());
    proof {
        if same {
            lemma_encoding_is_injective(a@, b@);
        }
    }
    same
}

} // verus!
