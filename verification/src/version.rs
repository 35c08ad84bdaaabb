//! Version-string encoding for plugin registration.
//!
//! The host loader stores a plugin's semantic version as a 16-bit integer:
//! the major part in the high byte and the minor part in the low byte. A
//! version is declared as a two-part decimal string `"major.minor"`; both
//! parts must fit in 8 bits.

use vstd::prelude::*;
use vstd::string::StringSliceAdditionalSpecFns;

verus! {

pub const BYTE_ZERO: u8 = 48;

pub const BYTE_NINE: u8 = 57;

pub const BYTE_DOT: u8 = 46;

pub const BYTE_PLUS: u8 = 43;

/// A decimal digit byte.
pub open spec fn is_digit_byte(b: u8) -> bool {
    BYTE_ZERO <= b <= BYTE_NINE
}

/// Every byte of `s` is a decimal digit.
pub open spec fn all_digit_bytes(s: Seq<u8>) -> bool {
    forall|i: int| 0 <= i < s.len() ==> is_digit_byte(#[trigger] s[i])
}

/// Numeric value of a string of decimal digits, most significant first.
pub open spec fn digits_value(s: Seq<u8>) -> nat
    decreases s.len(),
{
    if s.len() == 0 {
        0
    } else {
        (digits_value(s.drop_last()) * 10 + (s.last() - BYTE_ZERO)) as nat
    }
}

/// The digits of a version part, with an optional single leading `+`
/// stripped (the checked parser accepts `+5` for `5`, as a decimal
/// unsigned parse does).
pub open spec fn part_digits(s: Seq<u8>) -> Seq<u8> {
    if s.len() > 0 && s[0] == BYTE_PLUS {
        s.skip(1)
    } else {
        s
    }
}

/// A syntactically well-formed version part: an optional leading `+`,
/// then at least one digit and nothing else.
pub open spec fn part_syntax(s: Seq<u8>) -> bool {
    part_digits(s).len() > 0 && all_digit_bytes(part_digits(s))
}

/// Numeric value of a version part.
pub open spec fn version_part_value(s: Seq<u8>) -> nat {
    digits_value(part_digits(s))
}

/// A version part the encoder accepts: well-formed and at most 255.
pub open spec fn valid_version_part(s: Seq<u8>) -> bool {
    part_syntax(s) && version_part_value(s) <= 255
}

/// Count of `.` bytes in `s` from position `i` on.
pub open spec fn dot_count_from(s: Seq<u8>, i: int) -> nat
    decreases s.len() - i,
{
    if i < 0 || i >= s.len() {
        0
    } else {
        (if s[i] == BYTE_DOT {
            1nat
        } else {
            0nat
        }) + dot_count_from(s, i + 1)
    }
}

/// Count of `.` bytes in `s`.
pub open spec fn dot_count(s: Seq<u8>) -> nat {
    dot_count_from(s, 0)
}

/// Position of the first `.` at or after `i`, or -1 if there is none.
pub open spec fn find_dot_from(s: Seq<u8>, i: int) -> int
    decreases s.len() - i,
{
    if i < 0 || i >= s.len() {
        -1
    } else if s[i] == BYTE_DOT {
        i
    } else {
        find_dot_from(s, i + 1)
    }
}

/// Bytes before the first dot.
pub open spec fn version_prefix(s: Seq<u8>) -> Seq<u8> {
    s.subrange(0, find_dot_from(s, 0))
}

/// Bytes after the first dot.
pub open spec fn version_suffix(s: Seq<u8>) -> Seq<u8> {
    s.subrange(find_dot_from(s, 0) + 1, s.len() as int)
}

/// A valid two-part version string: exactly one dot, and a valid part on
/// each side of it.
pub open spec fn valid_version_string(s: Seq<u8>) -> bool {
    &&& dot_count(s) == 1
    &&& valid_version_part(version_prefix(s))
    &&& valid_version_part(version_suffix(s))
}

/// Pack a major/minor pair into the host's 16-bit encoding: the major
/// part in the high byte, the minor part in the low byte.
pub open spec fn spec_version_encode(major: u8, minor: u8) -> u16 {
    ((major as nat) * 256 + (minor as nat)) as u16
}

/// The 16-bit encoding of a valid version string.
pub open spec fn spec_version_int(s: Seq<u8>) -> u16
    recommends
        valid_version_string(s),
{
    (version_part_value(version_prefix(s)) * 256 + version_part_value(version_suffix(s))) as u16
}

/// Major part recovered from the 16-bit encoding.
pub open spec fn version_major(v: u16) -> u8 {
    (v / 256) as u8
}

/// Minor part recovered from the 16-bit encoding.
pub open spec fn version_minor(v: u16) -> u8 {
    (v % 256) as u8
}

/// Rejection reason for a malformed version string.
#[derive(Clone, Copy, Debug, PartialEq, Eq, Structural)]
pub enum VersionError {
    /// The string does not have exactly one `.` separator.
    MissingSeparator,
    /// A part is empty or holds a byte that is not a decimal digit.
    NotANumber,
    /// A part's numeric value does not fit in 8 bits.
    PartTooLarge,
}

/// Encoding then decoding a version pair recovers the original pair.
pub proof fn lemma_version_round_trip(major: u8, minor: u8)
    ensures
        version_major(spec_version_encode(major, minor)) == major,
        version_minor(spec_version_encode(major, minor)) == minor,
{
    let v = (major as nat) * 256 + (minor as nat);
    assert(v <= 0xffff);
    assert(v as u16 as int == v);
    assert(v / 256 == major as nat && v % 256 == minor as nat) by (nonlinear_arith)
        requires
            major <= 255 && minor <= 255 && v == (major as nat) * 256 + (minor as nat),
    ;
}

/// The encoding of a valid version string decodes back to the numeric
/// values of the two declared parts.
pub proof fn lemma_version_string_round_trip(s: Seq<u8>)
    requires
        valid_version_string(s),
    ensures
        version_major(spec_version_int(s)) as nat == version_part_value(version_prefix(s)),
        version_minor(spec_version_int(s)) as nat == version_part_value(version_suffix(s)),
{
    let major = version_part_value(version_prefix(s));
    let minor = version_part_value(version_suffix(s));
    let v = major * 256 + minor;
    assert(v <= 0xffff);
    assert(v / 256 == major && v % 256 == minor) by (nonlinear_arith)
        requires
            major <= 255 && minor <= 255 && v == major * 256 + minor,
    ;
}

/// Parse the decimal part `b[start..end]`: an optional leading `+`, then
/// digits. Reports how the part is malformed, or its value (at most 255).
fn parse_part(b: &[u8], start: usize, end: usize) -> (r: Result<u16, VersionError>)
    requires
        start <= end <= b@.len(),
    ensures
        ({
            let part = b@.subrange(start as int, end as int);
            match r {
                Ok(v) => valid_version_part(part) && v as nat == version_part_value(part),
                Err(VersionError::NotANumber) => !part_syntax(part),
                Err(VersionError::PartTooLarge) => part_syntax(part) && version_part_value(part)
                    > 255,
                Err(VersionError::MissingSeparator) => false,
            }
        }),
{
    let ghost part = b@.subrange(start as int, end as int);
    let mut ds: usize = start;
    if start < end && b[start] == BYTE_PLUS {
        ds = start + 1;
    }
    proof {
        if ds > start {
            assert(part_digits(part) =~= b@.subrange(ds as int, end as int));
        } else {
            assert(part_digits(part) =~= b@.subrange(ds as int, end as int));
        }
    }
    if ds == end {
        return Err(VersionError::NotANumber);
    }
    // Accumulate the value; hold anything past 255 at a sentinel so the
    // scan still classifies every remaining byte.
    let mut acc: u32 = 0;
    let mut j: usize = ds;
    while j < end
        invariant
            start <= ds <= j <= end <= b@.len(),
            part == b@.subrange(start as int, end as int),
            part_digits(part) == b@.subrange(ds as int, end as int),
            all_digit_bytes(b@.subrange(ds as int, j as int)),
            digits_value(b@.subrange(ds as int, j as int)) <= 255 ==> acc == digits_value(
                b@.subrange(ds as int, j as int),
            ),
            digits_value(b@.subrange(ds as int, j as int)) > 255 ==> acc > 255,
            acc <= 2559,
        decreases end - j,
    {
        let ghost pre = b@.subrange(ds as int, j as int);
        let ghost post = b@.subrange(ds as int, j + 1 as int);
        proof {
            assert(post.drop_last() =~= pre);
            assert(post.last() == b@[j as int]);
        }
        let c = b[j];
        if c < BYTE_ZERO || c > BYTE_NINE {
            proof {
                assert(part_digits(part)[j - ds] == b@[j as int]);
            }
            return Err(VersionError::NotANumber);
        }
        let d = (c - BYTE_ZERO) as u32;
        if acc <= 255 {
            acc = acc * 10 + d;
        }
        j += 1;
    }
    proof {
        assert(b@.subrange(ds as int, j as int) =~= part_digits(part));
    }
    if acc > 255 {
        Err(VersionError::PartTooLarge)
    } else {
        Ok(acc as u16)
    }
}

/// Convert a two-part version string such as `"1.2"` to the host's
/// 16-bit encoding (`0x0102`). Rejects a string without exactly one
/// `.`, a part that is not a decimal number, and a part over 255.
pub fn version_int(s: &str) -> (r: Result<u16, VersionError>)
    ensures
        ({
            let bytes = s.spec_bytes();
            match r {
                Ok(v) => valid_version_string(bytes) && v == spec_version_int(bytes),
                Err(VersionError::MissingSeparator) => dot_count(bytes) != 1,
                Err(VersionError::NotANumber) => dot_count(bytes) == 1 && (!part_syntax(
                    version_prefix(bytes),
                ) || !part_syntax(version_suffix(bytes))),
                Err(VersionError::PartTooLarge) => dot_count(bytes) == 1 && part_syntax(
                    version_prefix(bytes),
                ) && part_syntax(version_suffix(bytes)) && (version_part_value(
                    version_prefix(bytes),
                ) > 255 || version_part_value(version_suffix(bytes)) > 255),
            }
        }),
{
    let b = s.as_bytes();
    let n = b.len();
    let mut i: usize = 0;
    let mut count: usize = 0;
    let mut dot: usize = n;
    while i < n
        invariant
            0 <= i <= n,
            n == b@.len(),
            count + dot_count_from(b@, i as int) == dot_count(b@),
            count <= i,
            count == 0 ==> dot == n && find_dot_from(b@, 0) == find_dot_from(b@, i as int),
            count > 0 ==> dot < i && find_dot_from(b@, 0) == dot,
        decreases n - i,
    {
        if b[i] == BYTE_DOT {
            if count == 0 {
                dot = i;
            }
            count += 1;
        }
        i += 1;
    }
    if count != 1 {
        return Err(VersionError::MissingSeparator);
    }
    proof {
        assert(find_dot_from(b@, 0) == dot as int);
        assert(version_prefix(b@) == b@.subrange(0, dot as int));
        assert(version_suffix(b@) == b@.subrange(dot + 1 as int, n as int));
    }
    let major = parse_part(b, 0, dot);
    let minor = parse_part(b, dot + 1, n);
    match (major, minor) {
        (Ok(hi), Ok(lo)) => Ok(hi * 256 + lo),
        (Err(VersionError::NotANumber), _) => Err(VersionError::NotANumber),
        (_, Err(VersionError::NotANumber)) => Err(VersionError::NotANumber),
        (Err(e), _) => Err(e),
        (_, Err(e)) => Err(e),
    }
}

/// Convert a version string to the host's 32-bit registration integer.
///
/// This is the unchecked form used for an already-vetted declaration:
/// the string must hold a `.` with only digits around it, each side's
/// value at most 255. An empty side counts as zero.
pub fn parse_version_str(s: &str) -> (r: u32)
    requires
        find_dot_from(s.spec_bytes(), 0) >= 0,
        all_digit_bytes(version_prefix(s.spec_bytes())),
        all_digit_bytes(version_suffix(s.spec_bytes())),
        digits_value(version_prefix(s.spec_bytes())) <= 255,
        digits_value(version_suffix(s.spec_bytes())) <= 255,
    ensures
        r == digits_value(version_prefix(s.spec_bytes())) * 256 + digits_value(
            version_suffix(s.spec_bytes()),
        ),
{
    let b = s.as_bytes();
    let n = b.len();
    let mut i: usize = 0;
    let mut dot: usize = n;
    while i < n
        invariant
            0 <= i <= n,
            n == b@.len(),
            dot <= n,
            dot == n ==> find_dot_from(b@, 0) == find_dot_from(b@, i as int),
            dot < n ==> b@[dot as int] == BYTE_DOT && find_dot_from(b@, 0) == dot && dot < i,
        decreases n - i,
    {
        if dot == n && b[i] == BYTE_DOT {
            dot = i;
        }
        i += 1;
    }
    proof {
        assert(find_dot_from(b@, n as int) == -1);
        assert(dot < n);
    }
    let major = digits_to_value(b, 0, dot);
    let minor = digits_to_value(b, dot + 1, n);
    major as u32 * 256 + minor as u32
}

/// Value of the digit run `b[start..end]`, used by the unchecked parser.
fn digits_to_value(b: &[u8], start: usize, end: usize) -> (r: u16)
    requires
        start <= end <= b@.len(),
        all_digit_bytes(b@.subrange(start as int, end as int)),
        digits_value(b@.subrange(start as int, end as int)) <= 255,
    ensures
        r as nat == digits_value(b@.subrange(start as int, end as int)),
{
    let mut acc: u16 = 0;
    let mut j: usize = start;
    while j < end
        invariant
            start <= j <= end <= b@.len(),
            all_digit_bytes(b@.subrange(start as int, end as int)),
            digits_value(b@.subrange(start as int, end as int)) <= 255,
            acc as nat == digits_value(b@.subrange(start as int, j as int)),
            acc <= 255,
        decreases end - j,
    {
        let ghost pre = b@.subrange(start as int, j as int);
        let ghost post = b@.subrange(start as int, j + 1 as int);
        proof {
            assert(post.drop_last() =~= pre);
            assert(post.last() == b@[j as int]);
            lemma_digits_value_prefix_le(b@.subrange(start as int, end as int), j + 1 - start);
            assert(b@.subrange(start as int, end as int).subrange(0, j + 1 - start) =~= post);
        }
        let c = b[j];
        proof {
            assert(b@.subrange(start as int, end as int)[j - start] == b@[j as int]);
        }
        acc = acc * 10 + (c - BYTE_ZERO) as u16;
        j += 1;
    }
    proof {
        assert(b@.subrange(start as int, j as int) =~= b@.subrange(start as int, end as int));
    }
    acc
}

/// The value of a prefix of a digit run is no more than the whole run's.
proof fn lemma_digits_value_prefix_le(s: Seq<u8>, k: int)
    requires
        0 <= k <= s.len(),
        all_digit_bytes(s),
    ensures
        digits_value(s.subrange(0, k)) <= digits_value(s),
    decreases s.len() - k,
{
    if k == s.len() {
        assert(s.subrange(0, k) =~= s);
    } else {
        lemma_digits_value_prefix_le(s, k + 1);
        let a = s.subrange(0, k);
        let b = s.subrange(0, k + 1);
        assert(b.drop_last() =~= a);
        assert(is_digit_byte(b.last()));
        assert(digits_value(a) <= digits_value(a) * 10 + (b.last() - BYTE_ZERO));
    }
}

} // verus!
