//! Text building blocks: decimal numbers, zero padding, whitespace trimming
//! and splitting on a separator, each stated over `Seq<char>`.

use vstd::prelude::*;

verus! {

/// The character of a decimal digit `d` (`d < 10`).
pub open spec fn digit_char(d: nat) -> char {
    (d + 48) as char
}

/// Decimal representation of `n`, most significant digit first, no leading zeros.
pub open spec fn decimal(n: nat) -> Seq<char>
    decreases n,
{
    if n < 10 {
        seq![digit_char(n)]
    } else {
        decimal(n / 10).push(digit_char(n % 10))
    }
}

/// `k` zero characters.
pub open spec fn zeros(k: nat) -> Seq<char> {
    Seq::new(k, |_i: int| '0')
}

/// Decimal representation of `n`, left-padded with zeros to at least `width` characters.
pub open spec fn zero_padded(n: nat, width: nat) -> Seq<char> {
    let d = decimal(n);
    if d.len() < width {
        zeros((width - d.len()) as nat) + d
    } else {
        d
    }
}

/// Appends one character to a string.
#[verifier::external_body]
pub(crate) fn push_char(s: &mut String, c: char)
    ensures
        final(s)@ == old(s)@.push(c),
{
    s.push(c);
}

/// The digit character for `d < 10`.
pub fn digit(d: u64) -> (c: char)
    requires
        d < 10,
    ensures
        c == digit_char(d as nat),
{
    ((d as u8) + 48u8) as char
}

/// Appends the decimal representation of `n`.
pub fn push_decimal(s: &mut String, n: u64)
    ensures
        final(s)@ == old(s)@ + decimal(n as nat),
    decreases n,
{
    let ghost start = s@;
    if n >= 10 {
        push_decimal(s, n / 10);
        push_char(s, digit(n % 10));
        assert(s@ =~= start + decimal(n as nat));
    } else {
        push_char(s, digit(n));
        assert(s@ =~= start + decimal(n as nat));
    }
}

/// Number of decimal digits of `n`.
pub fn decimal_len(n: u64) -> (len: usize)
    ensures
        len == decimal(n as nat).len(),
        1 <= len <= 20,
    decreases n,
{
    if n >= 10 {
        let l = decimal_len(n / 10);
        proof {
            reveal_with_fuel(pow10, 21);
            lemma_decimal_len_bound(n as nat, 20);
        }
        l + 1
    } else {
        1
    }
}

/// `10^k`.
pub open spec fn pow10(k: nat) -> nat
    decreases k,
{
    if k == 0 {
        1
    } else {
        10 * pow10((k - 1) as nat)
    }
}

/// A number below `10^k` has at most `k` decimal digits (and always at least one).
pub proof fn lemma_decimal_len_bound(n: nat, k: nat)
    requires
        k >= 1,
        n < pow10(k),
    ensures
        1 <= decimal(n).len() <= k,
    decreases n,
{
    if n >= 10 {
        if k == 1 {
            assert(pow10(1) == 10 * pow10(0));
        } else {
            let p = pow10((k - 1) as nat);
            assert(n / 10 < p);
            lemma_decimal_len_bound(n / 10, (k - 1) as nat);
        }
    }
}

/// Appends `n` in decimal, left-padded with zeros to `width` characters.
pub fn push_zero_padded(s: &mut String, n: u64, width: usize)
    ensures
        final(s)@ == old(s)@ + zero_padded(n as nat, width as nat),
{
    let len = decimal_len(n);
    let ghost start = s@;
    if len < width {
        let mut i: usize = len;
        while i < width
            invariant
                len <= i <= width,
                s@ == start + zeros((i - len) as nat),
            decreases width - i,
        {
            push_char(s, '0');
            i = i + 1;
            assert(s@ =~= start + zeros((i - len) as nat));
        }
        let ghost mid = s@;
        push_decimal(s, n);
        assert(s@ =~= start + zero_padded(n as nat, width as nat));
    } else {
        push_decimal(s, n);
    }
}


/// Whether `c` has the Unicode `White_Space` property (what `char::is_whitespace` tests):
/// U+0009..U+000D, U+0020, U+0085, U+00A0, U+1680, U+2000..U+200A, U+2028,
/// U+2029, U+202F, U+205F and U+3000.
pub open spec fn is_unicode_whitespace(c: char) -> bool {
    let u = c as u32;
    (0x09 <= u <= 0x0D) || u == 0x20 || u == 0x85 || u == 0xA0 || u == 0x1680 || (0x2000 <= u
        <= 0x200A) || u == 0x2028 || u == 0x2029 || u == 0x202F || u == 0x205F || u == 0x3000
}

/// Whether the character has the Unicode `White_Space` property, as
/// `char::is_whitespace` answers.
pub fn char_is_whitespace(c: char) -> (b: bool)
    ensures
        b == is_unicode_whitespace(c),
{
    let u = c as u32;
    (0x09 <= u && u <= 0x0D) || u == 0x20 || u == 0x85 || u == 0xA0 || u == 0x1680 || (0x2000 <= u
        && u <= 0x200A) || u == 0x2028 || u == 0x2029 || u == 0x202F || u == 0x205F || u == 0x3000
}

/// `s` without its leading whitespace.
pub open spec fn trim_start(s: Seq<char>) -> Seq<char>
    decreases s.len(),
{
    if s.len() > 0 && is_unicode_whitespace(s[0]) {
        trim_start(s.drop_first())
    } else {
        s
    }
}

/// `s` without its trailing whitespace.
pub open spec fn trim_end(s: Seq<char>) -> Seq<char>
    decreases s.len(),
{
    if s.len() > 0 && is_unicode_whitespace(s.last()) {
        trim_end(s.drop_last())
    } else {
        s
    }
}

/// `s` without leading and trailing whitespace (what `str::trim` gives).
pub open spec fn trimmed(s: Seq<char>) -> Seq<char> {
    trim_end(trim_start(s))
}

/// The pieces of `s` between occurrences of `sep` (what `str::split` gives
/// for a character): one more piece than there are separators.
pub open spec fn split_on(s: Seq<char>, sep: char) -> Seq<Seq<char>>
    decreases s.len(),
{
    if s.len() == 0 {
        seq![Seq::<char>::empty()]
    } else {
        let p = split_on(s.drop_last(), sep);
        if s.last() == sep {
            p.push(Seq::<char>::empty())
        } else {
            p.update(p.len() - 1, p.last().push(s.last()))
        }
    }
}

/// Splitting always gives at least one piece.
pub proof fn lemma_split_on_nonempty(s: Seq<char>, sep: char)
    ensures
        split_on(s, sep).len() >= 1,
    decreases s.len(),
{
    if s.len() > 0 {
        lemma_split_on_nonempty(s.drop_last(), sep);
    }
}

/// Without the separator in `s`, splitting gives `s` itself.
pub proof fn lemma_split_on_no_sep(s: Seq<char>, sep: char)
    requires
        !s.contains(sep),
    ensures
        split_on(s, sep) == seq![s],
    decreases s.len(),
{
    if s.len() > 0 {
        assert(!s.drop_last().contains(sep)) by {
            if s.drop_last().contains(sep) {
                let k = choose|k: int| 0 <= k < s.drop_last().len() && s.drop_last()[k] == sep;
                assert(s[k] == sep);
            }
        }
        lemma_split_on_no_sep(s.drop_last(), sep);
        assert(s.last() != sep) by {
            assert(s[s.len() - 1] == s.last());
        }
        assert(s.drop_last().push(s.last()) =~= s);
        let p = split_on(s.drop_last(), sep);
        assert(p.last() == s.drop_last());
        assert(p.update(p.len() - 1, p.last().push(s.last())) =~= seq![s]);
    } else {
        assert(s =~= Seq::<char>::empty());
    }
}

/// Number of occurrences of `c` in `s`.
pub open spec fn count_char(s: Seq<char>, c: char) -> nat
    decreases s.len(),
{
    if s.len() == 0 {
        0
    } else {
        count_char(s.drop_last(), c) + (if s.last() == c {
            1nat
        } else {
            0nat
        })
    }
}

/// A text without occurrences of `c` does not contain it.
pub proof fn lemma_count_char_zero(s: Seq<char>, c: char)
    requires
        count_char(s, c) == 0,
    ensures
        !s.contains(c),
    decreases s.len(),
{
    if s.len() > 0 {
        lemma_count_char_zero(s.drop_last(), c);
        assert forall|k: int| 0 <= k < s.len() implies s[k] != c by {
            if k < s.len() - 1 {
                assert(s[k] == s.drop_last()[k]);
            }
        }
    }
}

/// Splitting gives one more piece than there are separators, and no piece
/// holds the separator.
pub proof fn lemma_split_on_pieces(s: Seq<char>, sep: char)
    ensures
        split_on(s, sep).len() == count_char(s, sep) + 1,
        forall|k: int| 0 <= k < split_on(s, sep).len() ==> !(#[trigger] split_on(s, sep)[k]).contains(sep),
    decreases s.len(),
{
    if s.len() > 0 {
        lemma_split_on_pieces(s.drop_last(), sep);
        let p = split_on(s.drop_last(), sep);
        if s.last() != sep {
            let q = p.last().push(s.last());
            assert(!q.contains(sep)) by {
                assert(!p[p.len() - 1].contains(sep));
                assert forall|j: int| 0 <= j < q.len() implies q[j] != sep by {
                    if j < q.len() - 1 {
                        assert(q[j] == p.last()[j]);
                    }
                }
            }
            assert forall|k: int| 0 <= k < split_on(s, sep).len() implies !(
            #[trigger] split_on(s, sep)[k]).contains(sep) by {
                if k < p.len() - 1 {
                    assert(split_on(s, sep)[k] == p[k]);
                }
            }
        } else {
            assert forall|k: int| 0 <= k < split_on(s, sep).len() implies !(
            #[trigger] split_on(s, sep)[k]).contains(sep) by {
                if k < p.len() {
                    assert(split_on(s, sep)[k] == p[k]);
                } else {
                    assert(split_on(s, sep)[k] =~= Seq::<char>::empty());
                }
            }
        }
    }
}

/// Splitting `a`, a separator and a piece `b` without separator: the
/// pieces of `a` followed by `b`.
pub proof fn lemma_split_on_append(a: Seq<char>, b: Seq<char>, sep: char)
    requires
        !b.contains(sep),
    ensures
        split_on(a + seq![sep] + b, sep) == split_on(a, sep).push(b),
    decreases b.len(),
{
    let x = a + seq![sep] + b;
    if b.len() == 0 {
        assert(x.drop_last() =~= a);
        assert(x.last() == sep);
        assert(b =~= Seq::<char>::empty());
    } else {
        let b0 = b.drop_last();
        assert(!b0.contains(sep)) by {
            assert forall|j: int| 0 <= j < b0.len() implies b0[j] != sep by {
                assert(b0[j] == b[j]);
            }
        }
        lemma_split_on_append(a, b0, sep);
        assert(x.drop_last() =~= a + seq![sep] + b0);
        assert(x.last() == b[b.len() - 1]);
        assert(b0.push(b.last()) =~= b);
        assert(split_on(x, sep) =~= split_on(a, sep).push(b));
    }
}

/// Whatever `trimmed(s)` contains, `s` contains.
pub proof fn lemma_trimmed_within(s: Seq<char>, c: char)
    ensures
        trimmed(s).contains(c) ==> s.contains(c),
{
    lemma_trim_start_within(s, c);
    lemma_trim_end_within(trim_start(s), c);
}

proof fn lemma_trim_start_within(s: Seq<char>, c: char)
    ensures
        trim_start(s).contains(c) ==> s.contains(c),
    decreases s.len(),
{
    if s.len() > 0 && is_unicode_whitespace(s[0]) {
        lemma_trim_start_within(s.drop_first(), c);
        if s.drop_first().contains(c) {
            let k = choose|k: int| 0 <= k < s.drop_first().len() && s.drop_first()[k] == c;
            assert(s[k + 1] == c);
        }
    }
}

proof fn lemma_trim_end_within(s: Seq<char>, c: char)
    ensures
        trim_end(s).contains(c) ==> s.contains(c),
    decreases s.len(),
{
    if s.len() > 0 && is_unicode_whitespace(s.last()) {
        lemma_trim_end_within(s.drop_last(), c);
        if s.drop_last().contains(c) {
            let k = choose|k: int| 0 <= k < s.drop_last().len() && s.drop_last()[k] == c;
            assert(s[k] == c);
        }
    }
}

/// The characters of a string.
pub fn chars_of(s: &str) -> (v: Vec<char>)
    ensures
        v@ == s@,
{
    let n = s.unicode_len();
    let mut v: Vec<char> = Vec::new();
    let mut i: usize = 0;
    while i < n
        invariant
            n == s@.len(),
            i <= n,
            v@ == s@.take(i as int),
        decreases n - i,
    {
        v.push(s.get_char(i));
        i = i + 1;
        assert(v@ =~= s@.take(i as int));
    }
    assert(s@.take(n as int) =~= s@);
    v
}

/// A string holding `v[lo..hi]`.
pub fn string_of(v: &Vec<char>, lo: usize, hi: usize) -> (s: String)
    requires
        lo <= hi <= v@.len(),
    ensures
        s@ == v@.subrange(lo as int, hi as int),
{
    let mut s = String::new();
    let mut i: usize = lo;
    while i < hi
        invariant
            lo <= i <= hi <= v@.len(),
            s@ == v@.subrange(lo as int, i as int),
        decreases hi - i,
    {
        push_char(&mut s, v[i]);
        i = i + 1;
        assert(s@ =~= v@.subrange(lo as int, i as int));
    }
    s
}

/// Trimming a range whose first `a - lo` characters are whitespace and
/// whose character at `a` (if any) is not.
proof fn lemma_trim_start_at(v: Seq<char>, lo: int, a: int, hi: int)
    requires
        0 <= lo <= a <= hi <= v.len(),
        forall|j: int| lo <= j < a ==> is_unicode_whitespace(#[trigger] v[j]),
        a < hi ==> !is_unicode_whitespace(v[a]),
    ensures
        trim_start(v.subrange(lo, hi)) == v.subrange(a, hi),
    decreases a - lo,
{
    if lo < a {
        assert(v.subrange(lo, hi).drop_first() =~= v.subrange(lo + 1, hi));
        lemma_trim_start_at(v, lo + 1, a, hi);
    }
}

/// Trimming the end of a range whose characters from `b` on are whitespace
/// and whose character before `b` (if any) is not.
proof fn lemma_trim_end_at(v: Seq<char>, lo: int, b: int, hi: int)
    requires
        0 <= lo <= b <= hi <= v.len(),
        forall|j: int| b <= j < hi ==> is_unicode_whitespace(#[trigger] v[j]),
        lo < b ==> !is_unicode_whitespace(v[b - 1]),
    ensures
        trim_end(v.subrange(lo, hi)) == v.subrange(lo, b),
    decreases hi - b,
{
    if b < hi {
        assert(v.subrange(lo, hi).drop_last() =~= v.subrange(lo, hi - 1));
        lemma_trim_end_at(v, lo, b, hi - 1);
    }
}

/// Bounds of `v[lo..hi]` with leading and trailing whitespace removed.
pub fn trim_range(v: &Vec<char>, lo: usize, hi: usize) -> (r: (usize, usize))
    requires
        lo <= hi <= v@.len(),
    ensures
        lo <= r.0 <= r.1 <= hi,
        v@.subrange(r.0 as int, r.1 as int) == trimmed(v@.subrange(lo as int, hi as int)),
{
    let mut a: usize = lo;
    while a < hi && char_is_whitespace(v[a])
        invariant
            lo <= a <= hi <= v@.len(),
            forall|j: int| lo <= j < a ==> is_unicode_whitespace(#[trigger] v@[j]),
        decreases hi - a,
    {
        a = a + 1;
    }
    proof {
        lemma_trim_start_at(v@, lo as int, a as int, hi as int);
    }
    let mut b: usize = hi;
    while b > a && char_is_whitespace(v[b - 1])
        invariant
            lo <= a <= b <= hi <= v@.len(),
            forall|j: int| b <= j < hi ==> is_unicode_whitespace(#[trigger] v@[j]),
        decreases b - a,
    {
        b = b - 1;
    }
    proof {
        lemma_trim_end_at(v@, a as int, b as int, hi as int);
    }
    (a, b)
}

} // verus!
