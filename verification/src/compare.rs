//! Per-channel comparison modes and the element-wise comparison over
//! channel slices.

use vstd::prelude::*;

verus! {

/// The relation applied to each color channel of a pixel against the
/// corresponding channel of the target color.
#[derive(Clone, Copy, PartialEq, Eq, Structural, Debug)]
pub enum ComparisonMode {
    /// A channel matches when it is exactly equal to the target channel.
    Equal,
    /// A channel matches when it is strictly greater than the target channel.
    GreaterThan,
    /// A channel matches when it is strictly less than the target channel.
    LessThan,
}

/// What it means for a single channel value `x` to satisfy `mode`
/// against the target channel value `y`.
pub open spec fn channel_rel(mode: ComparisonMode, x: u8, y: u8) -> bool {
    match mode {
        ComparisonMode::Equal => x == y,
        ComparisonMode::GreaterThan => x > y,
        ComparisonMode::LessThan => x < y,
    }
}

/// Equality test on two channel values.
pub fn eq(x: &u8, y: &u8) -> (r: bool)
    ensures
        r == channel_rel(ComparisonMode::Equal, *x, *y),
{
    x == y
}

/// Strictly-greater test on two channel values.
pub fn gt(x: &u8, y: &u8) -> (r: bool)
    ensures
        r == channel_rel(ComparisonMode::GreaterThan, *x, *y),
{
    x > y
}

/// Strictly-less test on two channel values.
pub fn lt(x: &u8, y: &u8) -> (r: bool)
    ensures
        r == channel_rel(ComparisonMode::LessThan, *x, *y),
{
    x < y
}

/// All pairs of channels drawn from `a` and `b`, element-wise up to the
/// shorter length, satisfy `mode`.
pub open spec fn all_channels_rel(a: Seq<u8>, b: Seq<u8>, mode: ComparisonMode) -> bool {
    forall|i: int|
        0 <= i < a.len() && i < b.len() ==> channel_rel(mode, a[i], b[i])
}

/// Compares two channel slices element-wise under `mode` and folds the
/// results with logical AND: true exactly when every aligned pair
/// satisfies the relation.
pub fn rgb_comp(a: &[u8], b: &[u8], mode: ComparisonMode) -> (r: bool)
    ensures
        r == all_channels_rel(a@, b@, mode),
{
    let n: usize = if a.len() < b.len() {
        a.len()
    } else {
        b.len()
    };
    let mut i: usize = 0;
    while i < n
        invariant
            0 <= i <= n,
            n <= a@.len(),
            n <= b@.len(),
            n == if a@.len() < b@.len() {
                a@.len() as int
            } else {
                b@.len() as int
            },
            forall|j: int| 0 <= j < i ==> channel_rel(mode, a@[j], b@[j]),
        decreases n - i,
    {
        let ok = match mode {
            ComparisonMode::Equal => eq(&a[i], &b[i]),
            ComparisonMode::GreaterThan => gt(&a[i], &b[i]),
            ComparisonMode::LessThan => lt(&a[i], &b[i]),
        };
        if !ok {
            return false;
        }
        i += 1;
    }
    true
}

} // verus!
