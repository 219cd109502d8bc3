//! Decoding of native text: the runtime hands strings back as raw bytes
//! whose encoding must be validated before they are exposed as host text,
//! and strings handed to the runtime must carry no interior NUL byte.

use crate::error::Error;
use vstd::prelude::*;
use vstd::string::StringExecFns;
use vstd::utf8::{decode_utf8, valid_utf8};

verus! {

/// Whether a NUL byte occurs anywhere in `b` (such bytes cannot be
/// represented in the native string encoding, which is NUL-terminated).
pub open spec fn has_nul_byte(b: Seq<u8>) -> bool {
    exists|i: int| 0 <= i < b.len() && b[i] == 0
}

/// Index of the first NUL byte of `b`, or `b.len()` if there is none.
pub open spec fn nul_pos(b: Seq<u8>) -> int
    decreases b.len(),
{
    if b.len() == 0 {
        0
    } else if b[0] == 0 {
        0
    } else {
        1 + nul_pos(b.drop_first())
    }
}

/// `nul_pos` is the first NUL: no NUL before it, a NUL at it if in range.
pub proof fn lemma_nul_pos(b: Seq<u8>)
    ensures
        0 <= nul_pos(b) <= b.len(),
        forall|j: int| 0 <= j < nul_pos(b) ==> b[j] != 0,
        nul_pos(b) < b.len() ==> b[nul_pos(b)] == 0,
        has_nul_byte(b) <==> nul_pos(b) < b.len(),
    decreases b.len(),
{
    if b.len() > 0 && b[0] != 0 {
        lemma_nul_pos(b.drop_first());
        assert(forall|j: int| 0 <= j < nul_pos(b) ==> b[j] != 0) by {
            assert(forall|j: int| 1 <= j < nul_pos(b) ==> b[j] == b.drop_first()[j - 1]
                && b.drop_first()[j - 1] != 0);
        }
        if has_nul_byte(b) {
            let i = choose|i: int| 0 <= i < b.len() && b[i] == 0;
            assert(i >= 1 && b.drop_first()[i - 1] == 0);
            assert(has_nul_byte(b.drop_first()));
        }
        if has_nul_byte(b.drop_first()) {
            let i = choose|i: int| 0 <= i < b.drop_first().len() && b.drop_first()[i] == 0;
            assert(b[i + 1] == 0);
        }
    }
}

/// Whether `b` contains a NUL byte.
pub fn contains_nul_byte(b: &[u8]) -> (r: bool)
    ensures
        r == has_nul_byte(b@),
{
    let n = b.len();
    let mut i: usize = 0;
    while i < n
        invariant
            n == b@.len(),
            0 <= i <= n,
            forall|j: int| 0 <= j < i ==> b@[j] != 0,
        decreases n - i,
    {
        if b[i] == 0 {
            return true;
        }
        i += 1;
    }
    false
}

/// Position of the first NUL byte of `b`, or `b.len()` if there is none.
pub fn find_nul_byte(b: &[u8]) -> (r: usize)
    ensures
        r == nul_pos(b@),
{
    let n = b.len();
    let mut i: usize = 0;
    while i < n
        invariant
            n == b@.len(),
            0 <= i <= n,
            forall|j: int| 0 <= j < i ==> b@[j] != 0,
        decreases n - i,
    {
        if b[i] == 0 {
            proof {
                lemma_nul_pos(b@);
                if nul_pos(b@) < i {
                    assert(b@[nul_pos(b@)] != 0);
                }
                if nul_pos(b@) > i {
                    assert(b@[i as int] != 0);
                }
            }
            return i;
        }
        i += 1;
    }
    proof {
        lemma_nul_pos(b@);
        if nul_pos(b@) < n {
            assert(b@[nul_pos(b@)] != 0);
        }
    }
    n
}

/// Relies on `String::from_utf8` of std: it returns the string decoded
/// from `bytes` exactly when `bytes` is valid UTF-8, and rejects `bytes`
/// otherwise. `vstd::utf8` supplies the matching mathematical model.
#[verifier::external_body]
fn utf8_to_string(bytes: Vec<u8>) -> (r: Option<String>)
    ensures
        match r {
            Some(s) => valid_utf8(bytes@) && s@ == decode_utf8(bytes@),
            None => !valid_utf8(bytes@),
        },
{
    String::from_utf8(bytes).ok()
}

/// Decodes text the native layer returned: invalid encoding is an error,
/// never a panic.
pub fn decode_text(bytes: Vec<u8>) -> (r: Result<String, Error>)
    ensures
        match r {
            Ok(s) => valid_utf8(bytes@) && s@ == decode_utf8(bytes@),
            Err(e) => !valid_utf8(bytes@) && (e matches Error::WrapperError(m) && m@
                == "invalid text encoding"@),
        },
{
    match utf8_to_string(bytes) {
        Some(s) => Ok(s),
        None => Err(Error::WrapperError(String::from_str("invalid text encoding"))),
    }
}

} // verus!
