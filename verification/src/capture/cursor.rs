//! Cursor samples recorded during capture (used by auto-zoom), and the
//! reading of the compositor's cursor report.

use vstd::prelude::*;
use crate::text::{chars_of, string_of, trim_range, trimmed};

verus! {

/// A cursor position with its time stamp. `x` and `y` are `f64` bit
/// patterns (`f64::to_bits`).
#[derive(Debug, Clone, Copy)]
pub struct CursorPosition {
    pub x: u64,
    pub y: u64,
    pub timestamp_ms: u64,
}

/// Whether `b` is the bit pattern of an `f64` NaN.
pub open spec fn f64_is_nan(b: u64) -> bool {
    b % 0x8000_0000_0000_0000 > 0x7FF0_0000_0000_0000
}

/// Whether the `f64` values with bit patterns `a` and `b` compare equal:
/// never when one is NaN, always for the two zeros, otherwise exactly when
/// the patterns agree.
pub open spec fn f64_bits_eq(a: u64, b: u64) -> bool {
    !f64_is_nan(a) && !f64_is_nan(b) && (a == b || (a % 0x8000_0000_0000_0000 == 0 && b
        % 0x8000_0000_0000_0000 == 0))
}

/// `==` of two `f64` values given by their bit patterns.
pub fn f64_bits_equal(a: u64, b: u64) -> (e: bool)
    ensures
        e == f64_bits_eq(a, b),
{
    let ma = a % 0x8000_0000_0000_0000;
    let mb = b % 0x8000_0000_0000_0000;
    ma <= 0x7FF0_0000_0000_0000 && mb <= 0x7FF0_0000_0000_0000 && (a == b || (ma == 0 && mb == 0))
}

impl PartialEq for CursorPosition {
    /// Coordinates that compare equal as `f64` and the same time stamp.
    fn eq(&self, other: &Self) -> (r: bool) {
        f64_bits_equal(self.x, other.x) && f64_bits_equal(self.y, other.y) && self.timestamp_ms
            == other.timestamp_ms
    }
}

impl vstd::std_specs::cmp::PartialEqSpecImpl for CursorPosition {
    open spec fn obeys_eq_spec() -> bool {
        true
    }

    open spec fn eq_spec(&self, other: &Self) -> bool {
        f64_bits_eq(self.x, other.x) && f64_bits_eq(self.y, other.y) && self.timestamp_ms
            == other.timestamp_ms
    }
}

/// `k` is the position of the first comma of `s`.
pub open spec fn is_first_comma(s: Seq<char>, k: int) -> bool {
    &&& 0 <= k < s.len()
    &&& s[k] == ','
    &&& forall|j: int| 0 <= j < k ==> s[j] != ','
}

/// The two coordinate texts of a cursor report `"X, Y"`: what stands
/// before and after the first comma, each without surrounding whitespace;
/// `None` when the report holds no comma.
pub fn cursorpos_fields(report: &str) -> (r: Option<(String, String)>)
    ensures
        r is None <==> !report@.contains(','),
        r matches Some((x, y)) ==> exists|k: int|
            is_first_comma(report@, k) && x@ == trimmed(report@.subrange(0, k)) && y@ == trimmed(
                report@.subrange(k + 1, report@.len() as int),
            ),
{
    let v = chars_of(report);
    let n = v.len();
    let mut k: usize = 0;
    while k < n && v[k] != ','
        invariant
            k <= n == v@.len(),
            v@ == report@,
            forall|j: int| 0 <= j < k ==> v@[j] != ',',
        decreases n - k,
    {
        k = k + 1;
    }
    if k == n {
        assert(!report@.contains(',')) by {
            if report@.contains(',') {
                let j = choose|j: int| 0 <= j < report@.len() && report@[j] == ',';
                assert(v@[j] != ',');
            }
        }
        return None;
    }
    let (a, b) = trim_range(&v, 0, k);
    let (c, d) = trim_range(&v, k + 1, n);
    let x = string_of(&v, a, b);
    let y = string_of(&v, c, d);
    assert(is_first_comma(report@, k as int));
    assert(report@.contains(','));
    Some((x, y))
}

} // verus!
