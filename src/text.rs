//! Text held in fixed-size, NUL-terminated byte fields.

use vstd::prelude::*;
use vstd::utf8::{decode_utf8, valid_utf8};

use crate::Error;

verus! {

/// The number of bytes before the first NUL of `b`, or all of `b` if it holds
/// none.
pub open spec fn nul_position(b: Seq<u8>) -> nat
    decreases b.len(),
{
    if b.len() == 0 {
        0
    } else if b[0] == 0 {
        0
    } else {
        1 + nul_position(b.drop_first())
    }
}

/// The text part of a NUL-terminated field: the bytes before its first NUL.
pub open spec fn field_text(b: Seq<u8>) -> Seq<u8> {
    b.take(nul_position(b) as int)
}

proof fn lemma_nul_position(b: Seq<u8>)
    ensures
        nul_position(b) <= b.len(),
        forall|j: int| 0 <= j < nul_position(b) ==> b[j] != 0,
        nul_position(b) < b.len() ==> b[nul_position(b) as int] == 0,
    decreases b.len(),
{
    if b.len() > 0 && b[0] != 0 {
        lemma_nul_position(b.drop_first());
        assert forall|j: int| 0 <= j < nul_position(b) implies b[j] != 0 by {
            if j > 0 {
                assert(b[j] == b.drop_first()[j - 1]);
            }
        }
    }
}

/// The text part of a field is no longer than the field.
pub proof fn lemma_field_text_len(b: Seq<u8>)
    ensures
        field_text(b).len() <= b.len(),
{
    lemma_nul_position(b);
}

proof fn lemma_nul_position_at(b: Seq<u8>, n: int)
    requires
        0 <= n <= b.len(),
        forall|j: int| 0 <= j < n ==> b[j] != 0,
        n == b.len() || b[n] == 0,
    ensures
        nul_position(b) == n,
    decreases b.len(),
{
    if b.len() > 0 && b[0] != 0 {
        assert forall|j: int| 0 <= j < n - 1 implies b.drop_first()[j] != 0 by {
            assert(b.drop_first()[j] == b[j + 1]);
        }
        lemma_nul_position_at(b.drop_first(), n - 1);
    }
}

/// The bytes of `b` before its first NUL.
pub fn field_bytes(b: &[u8]) -> (r: Vec<u8>)
    ensures
        r@ == field_text(b@),
{
    let mut r: Vec<u8> = Vec::new();
    let mut i: usize = 0;
    while i < b.len() && b[i] != 0
        invariant
            i <= b@.len(),
            r@ == b@.take(i as int),
            forall|j: int| 0 <= j < i ==> b@[j] != 0,
        decreases b@.len() - i,
    {
        r.push(b[i]);
        i = i + 1;
        assert(r@ =~= b@.take(i as int));
    }
    proof {
        lemma_nul_position_at(b@, i as int);
    }
    r
}

/// Relies on `String::from_utf8`: it succeeds exactly when the bytes are
/// valid UTF-8, and the string then holds the characters they encode.
#[verifier::external_body]
fn utf8_to_string(bytes: Vec<u8>) -> (r: Option<String>)
    ensures
        r.is_some() <==> valid_utf8(bytes@),
        r matches Some(s) ==> s@ == decode_utf8(bytes@),
{
    String::from_utf8(bytes).ok()
}

/// The text that `bytes` encode; `InvalidString` where they are not UTF-8.
pub fn text_of(bytes: Vec<u8>) -> (r: Result<String, Error>)
    ensures
        valid_utf8(bytes@) ==> (r matches Ok(s) && s@ == decode_utf8(bytes@)),
        !valid_utf8(bytes@) ==> r == Err::<String, Error>(Error::InvalidString),
{
    match utf8_to_string(bytes) {
        Some(s) => Ok(s),
        None => Err(Error::InvalidString),
    }
}

} // verus!
