//! Small helpers shared across the plugin layer.

use vstd::prelude::*;
use vstd::string::StringSliceAdditionalSpecFns;

verus! {

/// Lowest upper-case ASCII letter.
pub const BYTE_UPPER_A: u8 = 65;

/// Highest upper-case ASCII letter.
pub const BYTE_UPPER_Z: u8 = 90;

/// Distance between an upper-case ASCII letter and its lower-case form.
pub const ASCII_CASE_OFFSET: u8 = 32;

/// A byte folded to lower case where it is an upper-case ASCII letter.
pub open spec fn spec_ascii_lower(b: u8) -> u8 {
    if BYTE_UPPER_A <= b <= BYTE_UPPER_Z {
        (b + ASCII_CASE_OFFSET) as u8
    } else {
        b
    }
}

/// A byte string folded to ASCII lower case.
pub open spec fn spec_fold_lower(s: Seq<u8>) -> Seq<u8> {
    s.map_values(|b: u8| spec_ascii_lower(b))
}

/// The words that mean "true": on, true, 1.
pub open spec fn spec_is_true_word(s: Seq<u8>) -> bool {
    ||| s == seq![111u8, 110u8]
    ||| s == seq![116u8, 114u8, 117u8, 101u8]
    ||| s == seq![49u8]
}

/// The words that mean "false": off, false, 0.
pub open spec fn spec_is_false_word(s: Seq<u8>) -> bool {
    ||| s == seq![111u8, 102u8, 102u8]
    ||| s == seq![102u8, 97u8, 108u8, 115u8, 101u8]
    ||| s == seq![48u8]
}

/// Whether two byte strings are equal.
fn bytes_match(a: &[u8], b: &[u8]) -> (r: bool)
    ensures
        r == (a@ == b@),
{
    if a.len() != b.len() {
        proof {
            assert(a@ != b@);
        }
        return false;
    }
    let n = a.len();
    let mut i: usize = 0;
    while i < n
        invariant
            0 <= i <= n,
            n == a@.len() == b@.len(),
            forall|j: int| 0 <= j < i ==> a@[j] == b@[j],
        decreases n - i,
    {
        if a[i] != b[i] {
            return false;
        }
        i += 1;
    }
    proof {
        assert(a@ =~= b@);
    }
    true
}

/// Read a configuration word as a boolean, ASCII case-insensitively:
/// on, true and 1 are true; off, false and 0 are false; anything else is
/// no boolean. The accepted words are pure ASCII, so folding the input
/// byte by byte decides membership.
pub fn str2bool(s: &str) -> (r: Option<bool>)
    ensures
        r == Some(true) <==> spec_is_true_word(spec_fold_lower(s.spec_bytes())),
        r == Some(false) <==> spec_is_false_word(spec_fold_lower(s.spec_bytes())),
        r is None <==> !spec_is_true_word(spec_fold_lower(s.spec_bytes()))
            && !spec_is_false_word(spec_fold_lower(s.spec_bytes())),
{
    let b = s.as_bytes();
    let n = b.len();
    let mut lower: Vec<u8> = Vec::new();
    let mut i: usize = 0;
    while i < n
        invariant
            0 <= i <= n,
            n == b@.len(),
            lower@.len() == i,
            forall|j: int| 0 <= j < i ==> lower@[j] == spec_ascii_lower(#[trigger] b@[j]),
        decreases n - i,
    {
        let c = b[i];
        let folded: u8 = if c >= BYTE_UPPER_A && c <= BYTE_UPPER_Z {
            c + ASCII_CASE_OFFSET
        } else {
            c
        };
        lower.push(folded);
        i += 1;
    }
    proof {
        assert(lower@ =~= spec_fold_lower(b@));
    }
    let w_on: Vec<u8> = vec![111u8, 110u8];
    let w_true: Vec<u8> = vec![116u8, 114u8, 117u8, 101u8];
    let w_one: Vec<u8> = vec![49u8];
    let w_off: Vec<u8> = vec![111u8, 102u8, 102u8];
    let w_false: Vec<u8> = vec![102u8, 97u8, 108u8, 115u8, 101u8];
    let w_zero: Vec<u8> = vec![48u8];
    proof {
        assert(w_on@ =~= seq![111u8, 110u8]);
        assert(w_true@ =~= seq![116u8, 114u8, 117u8, 101u8]);
        assert(w_one@ =~= seq![49u8]);
        assert(w_off@ =~= seq![111u8, 102u8, 102u8]);
        assert(w_false@ =~= seq![102u8, 97u8, 108u8, 115u8, 101u8]);
        assert(w_zero@ =~= seq![48u8]);
    }
    if bytes_match(lower.as_slice(), w_on.as_slice()) || bytes_match(
        lower.as_slice(),
        w_true.as_slice(),
    ) || bytes_match(lower.as_slice(), w_one.as_slice()) {
        Some(true)
    } else if bytes_match(lower.as_slice(), w_off.as_slice()) || bytes_match(
        lower.as_slice(),
        w_false.as_slice(),
    ) || bytes_match(lower.as_slice(), w_zero.as_slice()) {
        Some(false)
    } else {
        None
    }
}

/// Map a host return code to the empty result it encodes: zero is
/// success, anything else failure.
pub fn to_result(val: i32) -> (r: Result<(), ()>)
    ensures
        r is Ok <==> val == 0,
{
    if val == 0 {
        Ok(())
    } else {
        Err(())
    }
}

} // verus!
