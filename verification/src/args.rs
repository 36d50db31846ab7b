//! Validation of the command-line values: the target color components and
//! the comparison operator. The caller collects the raw strings; this
//! module decides whether they are acceptable and what they denote.

use vstd::prelude::*;

use crate::compare::ComparisonMode;
use crate::filter::TargetColor;

verus! {

/// Errors at the argument-validation boundary.
#[derive(Clone, Copy, PartialEq, Eq, Structural, Debug)]
pub enum ArgError {
    /// A color component is not a decimal integer in 0..=255, or the
    /// number of supplied components is neither 0 nor 3.
    InvalidColorArgument,
    /// The operator is none of `eq`, `gt`, `lt`.
    InvalidOperatorArgument,
}

/// `c` is a decimal digit.
pub open spec fn is_dec_digit(c: char) -> bool {
    48 <= c as u32 <= 57
}

/// The numeric value of the digit `c`.
pub open spec fn dec_digit_value(c: char) -> int {
    c as u32 - 48
}

/// The value of `s` read as a decimal numeral, most significant digit
/// first.
pub open spec fn dec_value(s: Seq<char>) -> int
    decreases s.len(),
{
    if s.len() == 0 {
        0
    } else {
        dec_value(s.drop_last()) * 10 + dec_digit_value(s.last())
    }
}

/// `s` denotes a channel value: nonempty, decimal digits only, and its
/// value is at most 255.
pub open spec fn is_channel_numeral(s: Seq<char>) -> bool {
    &&& s.len() > 0
    &&& forall|i: int| 0 <= i < s.len() ==> is_dec_digit(s[i])
    &&& dec_value(s) <= 255
}

proof fn lemma_dec_value_nonneg(s: Seq<char>)
    requires
        forall|i: int| 0 <= i < s.len() ==> is_dec_digit(s[i]),
    ensures
        dec_value(s) >= 0,
    decreases s.len(),
{
    if s.len() > 0 {
        lemma_dec_value_nonneg(s.drop_last());
    }
}

proof fn lemma_dec_value_prefix_le(s: Seq<char>, k: int)
    requires
        0 <= k <= s.len(),
        forall|i: int| 0 <= i < s.len() ==> is_dec_digit(s[i]),
    ensures
        dec_value(s.subrange(0, k)) <= dec_value(s),
    decreases s.len() - k,
{
    if k < s.len() {
        lemma_dec_value_prefix_le(s, k + 1);
        lemma_dec_value_nonneg(s.subrange(0, k));
        assert(s.subrange(0, k + 1).drop_last() =~= s.subrange(0, k));
        assert(s.subrange(0, k + 1).last() == s[k]);
    } else {
        assert(s.subrange(0, k) =~= s);
    }
}

/// Reads a channel value from its decimal spelling: `Some` exactly on
/// nonempty all-digit strings whose value fits in 0..=255.
pub fn parse_u8(s: &str) -> (r: Option<u8>)
    ensures
        match r {
            Some(v) => is_channel_numeral(s@) && v == dec_value(s@),
            None => !is_channel_numeral(s@),
        },
{
    let n = s.unicode_len();
    if n == 0 {
        return None;
    }
    let mut acc: u32 = 0;
    let mut i: usize = 0;
    while i < n
        invariant
            0 <= i <= n,
            n == s@.len(),
            forall|j: int| 0 <= j < i ==> is_dec_digit(s@[j]),
            acc == dec_value(s@.subrange(0, i as int)),
            acc <= 255,
        decreases n - i,
    {
        let c = s.get_char(i);
        let v = c as u32;
        if v < 48 || v > 57 {
            assert(!is_dec_digit(s@[i as int]));
            return None;
        }
        let next = acc * 10 + (v - 48);
        proof {
            assert(s@.subrange(0, i + 1).drop_last() =~= s@.subrange(0, i as int));
            assert(s@.subrange(0, i + 1).last() == s@[i as int]);
        }
        if next > 255 {
            proof {
                if forall|j: int| 0 <= j < s@.len() ==> is_dec_digit(s@[j]) {
                    lemma_dec_value_prefix_le(s@, i + 1);
                }
            }
            return None;
        }
        acc = next;
        i += 1;
    }
    assert(s@.subrange(0, n as int) =~= s@);
    Some(acc as u8)
}

/// What a list of color-component strings denotes: none or an empty list
/// is the default white; exactly three channel numerals are a color; any
/// other list is rejected.
pub open spec fn spec_parse_color(vals: Option<Seq<Seq<char>>>) -> Result<
    TargetColor,
    ArgError,
> {
    match vals {
        None => Ok(TargetColor { r: 255, g: 255, b: 255 }),
        Some(vs) => {
            if vs.len() == 0 {
                Ok(TargetColor { r: 255, g: 255, b: 255 })
            } else if vs.len() == 3 && is_channel_numeral(vs[0]) && is_channel_numeral(vs[1])
                && is_channel_numeral(vs[2]) {
                Ok(
                    TargetColor {
                        r: dec_value(vs[0]) as u8,
                        g: dec_value(vs[1]) as u8,
                        b: dec_value(vs[2]) as u8,
                    },
                )
            } else {
                Err(ArgError::InvalidColorArgument)
            }
        },
    }
}

/// Validates the `--color` values: absent or empty means the default
/// white (255, 255, 255); otherwise exactly three components, each a
/// decimal integer in 0..=255, are required.
pub fn parse_color(vals: &Option<Vec<String>>) -> (r: Result<TargetColor, ArgError>)
    ensures
        r == spec_parse_color(
            match vals {
                Some(vs) => Some(vs.deep_view()),
                None => None,
            },
        ),
{
    match vals {
        None => Ok(TargetColor { r: 255, g: 255, b: 255 }),
        Some(vs) => {
            if vs.len() == 0 {
                Ok(TargetColor { r: 255, g: 255, b: 255 })
            } else if vs.len() == 3 {
                let r = parse_u8(vs[0].as_str());
                let g = parse_u8(vs[1].as_str());
                let b = parse_u8(vs[2].as_str());
                match (r, g, b) {
                    (Some(r), Some(g), Some(b)) => Ok(TargetColor { r, g, b }),
                    _ => Err(ArgError::InvalidColorArgument),
                }
            } else {
                Err(ArgError::InvalidColorArgument)
            }
        },
    }
}

/// The default color, spelled out, means the same as no color at all:
/// omitting the option and writing `255 255 255` give one result.
pub proof fn lemma_default_color()
    ensures
        spec_parse_color(Some(seq!["255"@, "255"@, "255"@])) == spec_parse_color(None),
{
    reveal_strlit("255");
    let s = "255"@;
    let s2 = seq!['2', '5'];
    let s1 = seq!['2'];
    assert(s1.drop_last() =~= Seq::<char>::empty());
    assert(dec_value(Seq::<char>::empty()) == 0);
    assert(dec_value(s1) == 2);
    assert(s2.drop_last() =~= s1);
    assert(dec_value(s2) == 25);
    assert(s.len() == 3);
    assert(s.drop_last() =~= s2);
    assert(s.last() == '5');
    assert(dec_value(s) == 255);
}

/// What an operator string denotes: one of the three comparison modes,
/// anything else is rejected.
pub open spec fn spec_comp_func(s: Seq<char>) -> Result<ComparisonMode, ArgError> {
    if s == "eq"@ {
        Ok(ComparisonMode::Equal)
    } else if s == "gt"@ {
        Ok(ComparisonMode::GreaterThan)
    } else if s == "lt"@ {
        Ok(ComparisonMode::LessThan)
    } else {
        Err(ArgError::InvalidOperatorArgument)
    }
}

/// Selects the comparison mode named by `op`: `eq`, `gt` or `lt`; any
/// other string is rejected.
pub fn comp_func(op: &str) -> (r: Result<ComparisonMode, ArgError>)
    ensures
        r == spec_comp_func(op@),
{
    proof {
        reveal_strlit("eq");
        reveal_strlit("gt");
        reveal_strlit("lt");
    }
    let n = op.unicode_len();
    if n != 2 {
        return Err(ArgError::InvalidOperatorArgument);
    }
    let c0 = op.get_char(0);
    let c1 = op.get_char(1);
    if c0 == 'e' && c1 == 'q' {
        assert(op@ =~= "eq"@);
        Ok(ComparisonMode::Equal)
    } else if c0 == 'g' && c1 == 't' {
        assert(op@ =~= "gt"@);
        Ok(ComparisonMode::GreaterThan)
    } else if c0 == 'l' && c1 == 't' {
        assert(op@ =~= "lt"@);
        Ok(ComparisonMode::LessThan)
    } else {
        Err(ArgError::InvalidOperatorArgument)
    }
}

/// The default operator string `eq` denotes the `Equal` mode: omitting
/// the option and writing `eq` give one result.
pub proof fn lemma_default_operator()
    ensures
        spec_comp_func("eq"@) == Ok::<ComparisonMode, ArgError>(ComparisonMode::Equal),
{
}

} // verus!
