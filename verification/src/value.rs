//! Typed values read back from the host's SQL service.
//!
//! The service hands every column back as a decimal byte string plus the
//! column's declared type; the value is recovered by parsing the bytes
//! as that type. Floating-point column kinds stay outside this layer.

use vstd::prelude::*;

verus! {

/// Minus sign byte.
pub const BYTE_MINUS: u8 = 45;

/// A decimal digit byte.
pub open spec fn value_is_digit(b: u8) -> bool {
    48 <= b <= 57
}

/// Digits of a signed decimal literal: what follows an optional single
/// leading minus.
pub open spec fn int_digits(s: Seq<u8>) -> Seq<u8> {
    if s.len() > 0 && s[0] == BYTE_MINUS {
        s.skip(1)
    } else {
        s
    }
}

/// Whether the literal is negative.
pub open spec fn int_is_negative(s: Seq<u8>) -> bool {
    s.len() > 0 && s[0] == BYTE_MINUS
}

/// Value of a run of decimal digits, most significant first.
pub open spec fn digits_val(s: Seq<u8>) -> nat
    decreases s.len(),
{
    if s.len() == 0 {
        0
    } else {
        (digits_val(s.drop_last()) * 10 + (s.last() - 48)) as nat
    }
}

/// A well-formed signed decimal literal whose value fits in a 64-bit
/// signed integer.
pub open spec fn valid_i64_literal(s: Seq<u8>) -> bool {
    &&& int_digits(s).len() > 0
    &&& forall|i: int| 0 <= i < int_digits(s).len() ==> value_is_digit(#[trigger] int_digits(s)[i])
    &&& (if int_is_negative(s) {
        digits_val(int_digits(s)) <= 0x8000_0000_0000_0000
    } else {
        digits_val(int_digits(s)) <= 0x7fff_ffff_ffff_ffff
    })
}

/// The signed value of a well-formed decimal literal.
pub open spec fn i64_literal_value(s: Seq<u8>) -> int {
    if int_is_negative(s) {
        -(digits_val(int_digits(s)) as int)
    } else {
        digits_val(int_digits(s)) as int
    }
}

/// The column types this layer recovers values for. Floating-point and
/// temporal kinds of the host's type enum are not carried here.
#[derive(Clone, Copy, Debug, PartialEq, Eq, Structural)]
pub enum FieldType {
    Decimal,
    Tiny,
    Short,
    Long,
    LongLong,
    Null,
    Blob,
    VarString,
    FieldString,
    Json,
}

/// A SQL type and value.
#[derive(Clone, Copy, Debug)]
pub enum Value<'a> {
    Decimal(&'a [u8]),
    I8(i8),
    I16(i16),
    Long(i64),
    LongLong(i64),
    Null,
    Text(&'a [u8]),
    Blob(&'a [u8]),
    Json(&'a [u8]),
}

impl<'a> Value<'a> {
    /// The integer a numeric value holds, if it holds one.
    pub fn as_int(&self) -> (r: Option<i64>)
        ensures
            r == match *self {
                Value::I8(v) => Some(v as i64),
                Value::I16(v) => Some(v as i64),
                Value::Long(v) => Some(v),
                Value::LongLong(v) => Some(v),
                _ => None::<i64>,
            },
    {
        match self {
            Value::I8(v) => Some(*v as i64),
            Value::I16(v) => Some(*v as i64),
            Value::Long(v) => Some(*v),
            Value::LongLong(v) => Some(*v),
            _ => None,
        }
    }

    /// The bytes a textual value holds, if it holds any.
    pub fn as_bytes(&self) -> (r: Option<&'a [u8]>)
        ensures
            match *self {
                Value::Decimal(b) => r == Some(b),
                Value::Text(b) => r == Some(b),
                Value::Blob(b) => r == Some(b),
                Value::Json(b) => r == Some(b),
                _ => r is None,
            },
    {
        match self {
            Value::Decimal(b) => Some(*b),
            Value::Text(b) => Some(*b),
            Value::Blob(b) => Some(*b),
            Value::Json(b) => Some(*b),
            _ => None,
        }
    }
}

/// Parse a signed 64-bit integer from its decimal byte string.
pub fn parse_i64(bytes: &[u8]) -> (r: i64)
    requires
        valid_i64_literal(bytes@),
    ensures
        r as int == i64_literal_value(bytes@),
{
    let n = bytes.len();
    let negative = bytes[0] == BYTE_MINUS;
    let ds: usize = if negative {
        1
    } else {
        0
    };
    proof {
        assert(int_digits(bytes@) =~= bytes@.subrange(ds as int, n as int));
    }
    let mut acc: u64 = 0;
    let mut j: usize = ds;
    while j < n
        invariant
            ds <= j <= n,
            n == bytes@.len(),
            int_digits(bytes@) == bytes@.subrange(ds as int, n as int),
            valid_i64_literal(bytes@),
            acc == digits_val(bytes@.subrange(ds as int, j as int)),
            acc <= 0x8000_0000_0000_0000,
        decreases n - j,
    {
        let ghost pre = bytes@.subrange(ds as int, j as int);
        let ghost post = bytes@.subrange(ds as int, j + 1 as int);
        proof {
            assert(post.drop_last() =~= pre);
            assert(post.last() == bytes@[j as int]);
            lemma_digits_val_prefix_le(int_digits(bytes@), j + 1 - ds);
            assert(int_digits(bytes@).subrange(0, j + 1 - ds) =~= post);
            assert(int_digits(bytes@)[j - ds] == bytes@[j as int]);
        }
        let c = bytes[j];
        acc = acc * 10 + (c - 48) as u64;
        j += 1;
    }
    proof {
        assert(bytes@.subrange(ds as int, n as int) =~= int_digits(bytes@));
    }
    if negative {
        if acc == 0x8000_0000_0000_0000 {
            i64::MIN
        } else {
            -((acc) as i64)
        }
    } else {
        acc as i64
    }
}

/// The value of a prefix of a digit run is no more than the whole run's.
proof fn lemma_digits_val_prefix_le(s: Seq<u8>, k: int)
    requires
        0 <= k <= s.len(),
        forall|i: int| 0 <= i < s.len() ==> value_is_digit(#[trigger] s[i]),
    ensures
        digits_val(s.subrange(0, k)) <= digits_val(s),
    decreases s.len() - k,
{
    if k == s.len() {
        assert(s.subrange(0, k) =~= s);
    } else {
        lemma_digits_val_prefix_le(s, k + 1);
        let a = s.subrange(0, k);
        let b = s.subrange(0, k + 1);
        assert(b.drop_last() =~= a);
        assert(value_is_digit(b.last()));
        assert(digits_val(a) <= digits_val(a) * 10 + (b.last() - 48));
    }
}

/// The bytes are well formed for the column type: numeric kinds carry a
/// decimal literal in their range; everything else is carried as bytes.
pub open spec fn bytes_fit_type(ty: FieldType, s: Seq<u8>) -> bool {
    match ty {
        FieldType::Tiny => valid_i64_literal(s) && i8::MIN <= i64_literal_value(s) <= i8::MAX,
        FieldType::Short => valid_i64_literal(s) && i16::MIN <= i64_literal_value(s) <= i16::MAX,
        FieldType::Long => valid_i64_literal(s),
        FieldType::LongLong => valid_i64_literal(s),
        _ => true,
    }
}

/// The value a column's bytes decode to under its type.
pub open spec fn spec_value_for(ty: FieldType, s: Seq<u8>, r: Value) -> bool {
    match ty {
        FieldType::Decimal => r matches Value::Decimal(b) && b@ == s,
        FieldType::Tiny => r == Value::I8(i64_literal_value(s) as i8),
        FieldType::Short => r == Value::I16(i64_literal_value(s) as i16),
        FieldType::Long => r == Value::Long(i64_literal_value(s) as i64),
        FieldType::LongLong => r == Value::LongLong(i64_literal_value(s) as i64),
        FieldType::Null => r is Null,
        FieldType::Blob => r matches Value::Blob(b) && b@ == s,
        FieldType::VarString => r matches Value::Text(b) && b@ == s,
        FieldType::FieldString => r matches Value::Text(b) && b@ == s,
        FieldType::Json => r matches Value::Json(b) && b@ == s,
    }
}

/// Recover a column's typed value from the decimal byte string the SQL
/// service handed back for it.
pub fn parse_value<'a>(ty: FieldType, bytes: &'a [u8]) -> (r: Value<'a>)
    requires
        bytes_fit_type(ty, bytes@),
    ensures
        spec_value_for(ty, bytes@, r),
{
    match ty {
        FieldType::Decimal => Value::Decimal(bytes),
        FieldType::Tiny => Value::I8(parse_i64(bytes) as i8),
        FieldType::Short => Value::I16(parse_i64(bytes) as i16),
        FieldType::Long => Value::Long(parse_i64(bytes)),
        FieldType::LongLong => Value::LongLong(parse_i64(bytes)),
        FieldType::Null => Value::Null,
        FieldType::Blob => Value::Blob(bytes),
        FieldType::VarString => Value::Text(bytes),
        FieldType::FieldString => Value::Text(bytes),
        FieldType::Json => Value::Json(bytes),
    }
}

} // verus!
