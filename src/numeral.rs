use vstd::prelude::*;

verus! {

pub const DOT: u8 = 46;

pub const SLASH: u8 = 47;

/// The longest run of digits a numeral may hold: every such value fits in `u64`.
pub const MAX_DIGITS: usize = 19;

pub open spec fn is_space(b: u8) -> bool {
    b == 32 || (9 <= b && b <= 13)
}

pub open spec fn is_digit(b: u8) -> bool {
    48 <= b && b <= 57
}

pub open spec fn all_digits(s: Seq<u8>) -> bool {
    forall|i: int| 0 <= i < s.len() ==> is_digit(#[trigger] s[i])
}

pub open spec fn pow10(n: nat) -> nat
    decreases n,
{
    if n == 0 {
        1
    } else {
        10 * pow10((n - 1) as nat)
    }
}

/// The number that a run of decimal digits denotes.
pub open spec fn digits_value(s: Seq<u8>) -> nat
    decreases s.len(),
{
    if s.len() == 0 {
        0
    } else {
        digits_value(s.drop_last()) * 10 + (s.last() - 48) as nat
    }
}

/// Index of the first `b` in `s`, or `s.len()` when `b` does not occur.
pub open spec fn first_index(s: Seq<u8>, b: u8) -> int
    decreases s.len(),
{
    if s.len() == 0 {
        0
    } else if s[0] == b {
        0
    } else {
        1 + first_index(s.drop_first(), b)
    }
}

pub open spec fn trim_front(s: Seq<u8>) -> Seq<u8>
    decreases s.len(),
{
    if s.len() > 0 && is_space(s[0]) {
        trim_front(s.drop_first())
    } else {
        s
    }
}

pub open spec fn trim_back(s: Seq<u8>) -> Seq<u8>
    decreases s.len(),
{
    if s.len() > 0 && is_space(s.last()) {
        trim_back(s.drop_last())
    } else {
        s
    }
}

/// `s` without the white space at either end.
pub open spec fn trimmed(s: Seq<u8>) -> Seq<u8> {
    trim_back(trim_front(s))
}

/// A run of 1 to 19 digits, and the number it denotes.
pub open spec fn integer_of(s: Seq<u8>) -> Option<nat> {
    if all_digits(s) && 1 <= s.len() <= MAX_DIGITS {
        Some(digits_value(s))
    } else {
        None
    }
}

/// A decimal numeral: digits, optionally followed by a point and more digits,
/// with 1 to 19 digits in all. Its value is `mantissa / 10^scale`, given as
/// the pair `(mantissa, scale)`.
pub open spec fn numeral_of(s: Seq<u8>) -> Option<(nat, nat)> {
    let k = first_index(s, DOT);
    let whole = s.subrange(0, k);
    let frac = if k < s.len() {
        s.subrange(k + 1, s.len() as int)
    } else {
        Seq::<u8>::empty()
    };
    if all_digits(whole) && all_digits(frac) && 1 <= whole.len() + frac.len() <= MAX_DIGITS {
        Some((digits_value(whole) * pow10(frac.len()) + digits_value(frac), frac.len()))
    } else {
        None
    }
}

pub proof fn lemma_first_index_bounds(s: Seq<u8>, b: u8)
    ensures
        0 <= first_index(s, b) <= s.len(),
        first_index(s, b) < s.len() ==> s[first_index(s, b)] == b,
    decreases s.len(),
{
    if s.len() > 0 && s[0] != b {
        lemma_first_index_bounds(s.drop_first(), b);
    }
}

pub proof fn lemma_pow10_monotonic(a: nat, b: nat)
    requires
        a <= b,
    ensures
        1 <= pow10(a) <= pow10(b),
    decreases b,
{
    if a < b {
        lemma_pow10_monotonic(a, (b - 1) as nat);
    } else if a > 0 {
        lemma_pow10_monotonic((a - 1) as nat, (a - 1) as nat);
    }
}

pub proof fn lemma_pow10_add(a: nat, b: nat)
    ensures
        pow10(a + b) == pow10(a) * pow10(b),
    decreases b,
{
    if b > 0 {
        lemma_pow10_add(a, (b - 1) as nat);
        assert(pow10(a + b) == 10 * pow10((a + b - 1) as nat));
        assert(pow10(a) * pow10(b) == pow10(a) * (10 * pow10((b - 1) as nat)));
        assert(pow10(a) * (10 * pow10((b - 1) as nat)) == 10 * (pow10(a) * pow10((b - 1) as nat)))
            by (nonlinear_arith);
    } else {
        assert(a + b == a);
        assert(pow10(b) == 1);
    }
}

pub proof fn lemma_pow10_max()
    ensures
        pow10(MAX_DIGITS as nat) == 10_000_000_000_000_000_000nat,
{
    reveal_with_fuel(pow10, 20);
}

pub proof fn lemma_digits_value_bound(s: Seq<u8>)
    requires
        all_digits(s),
    ensures
        digits_value(s) < pow10(s.len()),
    decreases s.len(),
{
    if s.len() > 0 {
        let p = s.drop_last();
        assert(all_digits(p)) by {
            assert forall|i: int| 0 <= i < p.len() implies is_digit(#[trigger] p[i]) by {
                assert(p[i] == s[i]);
            }
        }
        assert(is_digit(s[s.len() - 1]));
        lemma_digits_value_bound(p);
        let v = digits_value(p);
        let q = pow10(p.len());
        assert(v * 10 + ((s.last() - 48) as nat) < 10 * q) by (nonlinear_arith)
            requires
                v < q,
                ((s.last() - 48) as nat) <= 9,
        ;
    }
}

/// Whether every byte of `s[lo..hi]` is a digit.
pub fn digits_only(s: &[u8], lo: usize, hi: usize) -> (r: bool)
    requires
        lo <= hi <= s@.len(),
    ensures
        r == all_digits(s@.subrange(lo as int, hi as int)),
{
    let mut i: usize = lo;
    while i < hi
        invariant
            lo <= i <= hi <= s@.len(),
            forall|j: int| lo <= j < i ==> is_digit(#[trigger] s@[j]),
        decreases hi - i,
    {
        if !(48 <= s[i] && s[i] <= 57) {
            assert(s@.subrange(lo as int, hi as int)[i - lo] == s@[i as int]);
            return false;
        }
        i = i + 1;
    }
    assert forall|j: int| 0 <= j < hi - lo implies is_digit(
        #[trigger] s@.subrange(lo as int, hi as int)[j],
    ) by {
        assert(s@.subrange(lo as int, hi as int)[j] == s@[lo + j]);
    }
    true
}

/// The value of the digits `s[lo..hi]`.
pub fn digits_number(s: &[u8], lo: usize, hi: usize) -> (r: u64)
    requires
        lo <= hi <= s@.len(),
        hi - lo <= MAX_DIGITS,
        all_digits(s@.subrange(lo as int, hi as int)),
    ensures
        r as nat == digits_value(s@.subrange(lo as int, hi as int)),
{
    let ghost whole = s@.subrange(lo as int, hi as int);
    let mut acc: u64 = 0;
    let mut i: usize = lo;
    proof {
        lemma_pow10_max();
        assert(s@.subrange(lo as int, lo as int) =~= Seq::<u8>::empty());
    }
    while i < hi
        invariant
            lo <= i <= hi <= s@.len(),
            hi - lo <= MAX_DIGITS,
            whole == s@.subrange(lo as int, hi as int),
            all_digits(whole),
            pow10(MAX_DIGITS as nat) == 10_000_000_000_000_000_000nat,
            acc as nat == digits_value(s@.subrange(lo as int, i as int)),
            (acc as nat) < pow10((i - lo) as nat),
        decreases hi - i,
    {
        let ghost part = s@.subrange(lo as int, i as int + 1);
        assert(part.drop_last() =~= s@.subrange(lo as int, i as int));
        assert(whole[i - lo] == s@[i as int]);
        assert(is_digit(s@[i as int]));
        let d = (s[i] - 48) as u64;
        proof {
            lemma_pow10_monotonic((i + 1 - lo) as nat, MAX_DIGITS as nat);
            assert(pow10((i + 1 - lo) as nat) == 10 * pow10((i - lo) as nat));
            assert(acc * 10 + d < 10 * pow10((i - lo) as nat)) by (nonlinear_arith)
                requires
                    (acc as nat) < pow10((i - lo) as nat),
                    d <= 9,
            ;
        }
        acc = acc * 10 + d;
        i = i + 1;
    }
    acc
}

/// The index of the first `b` in `s[lo..hi]`, counted from the start of `s`;
/// `hi` when there is none.
pub fn find_byte(s: &[u8], lo: usize, hi: usize, b: u8) -> (k: usize)
    requires
        lo <= hi <= s@.len(),
    ensures
        lo <= k <= hi,
        k - lo == first_index(s@.subrange(lo as int, hi as int), b),
{
    let mut i: usize = lo;
    while i < hi
        invariant
            lo <= i <= hi <= s@.len(),
            first_index(s@.subrange(lo as int, hi as int), b) == (i - lo) + first_index(
                s@.subrange(i as int, hi as int),
                b,
            ),
        decreases hi - i,
    {
        if s[i] == b {
            return i;
        }
        assert(s@.subrange(i as int, hi as int).drop_first() =~= s@.subrange(
            i as int + 1,
            hi as int,
        ));
        i = i + 1;
    }
    i
}

/// The bounds `(lo, hi)` of `s` without the white space at either end.
pub fn trim_bounds(s: &[u8]) -> (r: (usize, usize))
    ensures
        r.0 <= r.1 <= s@.len(),
        s@.subrange(r.0 as int, r.1 as int) == trimmed(s@),
{
    let n = s.len();
    let mut lo: usize = 0;
    assert(s@.subrange(0, n as int) =~= s@);
    while lo < n && (s[lo] == 32 || (9 <= s[lo] && s[lo] <= 13))
        invariant
            lo <= n == s@.len(),
            trim_front(s@.subrange(lo as int, n as int)) == trim_front(s@),
        decreases n - lo,
    {
        assert(s@.subrange(lo as int, n as int).drop_first() =~= s@.subrange(
            lo as int + 1,
            n as int,
        ));
        lo = lo + 1;
    }
    let mut hi: usize = n;
    while hi > lo && (s[hi - 1] == 32 || (9 <= s[hi - 1] && s[hi - 1] <= 13))
        invariant
            lo <= hi <= n == s@.len(),
            trim_front(s@) == s@.subrange(lo as int, n as int),
            trim_back(s@.subrange(lo as int, hi as int)) == trimmed(s@),
        decreases hi,
    {
        assert(s@.subrange(lo as int, hi as int).drop_last() =~= s@.subrange(
            lo as int,
            hi as int - 1,
        ));
        hi = hi - 1;
    }
    (lo, hi)
}

/// `10^n`.
pub fn power_of_ten(n: u32) -> (r: u64)
    requires
        n <= MAX_DIGITS,
    ensures
        r as nat == pow10(n as nat),
{
    let mut p: u64 = 1;
    let mut j: u32 = 0;
    proof {
        lemma_pow10_max();
    }
    while j < n
        invariant
            j <= n <= MAX_DIGITS,
            pow10(MAX_DIGITS as nat) == 10_000_000_000_000_000_000nat,
            p as nat == pow10(j as nat),
        decreases n - j,
    {
        proof {
            lemma_pow10_monotonic((j + 1) as nat, MAX_DIGITS as nat);
        }
        p = p * 10;
        j = j + 1;
    }
    p
}

/// Reads `s[lo..hi]` as a run of 1 to 19 digits.
pub fn parse_integer(s: &[u8], lo: usize, hi: usize) -> (r: Option<u64>)
    requires
        lo <= hi <= s@.len(),
    ensures
        match r {
            Some(v) => integer_of(s@.subrange(lo as int, hi as int)) == Some(v as nat),
            None => integer_of(s@.subrange(lo as int, hi as int)) is None,
        },
{
    if lo < hi && hi - lo <= MAX_DIGITS && digits_only(s, lo, hi) {
        Some(digits_number(s, lo, hi))
    } else {
        None
    }
}

/// Reads `s[lo..hi]` as a decimal numeral, giving `(mantissa, scale)`.
pub fn parse_numeral(s: &[u8], lo: usize, hi: usize) -> (r: Option<(u64, u32)>)
    requires
        lo <= hi <= s@.len(),
    ensures
        match r {
            Some((m, sc)) => numeral_of(s@.subrange(lo as int, hi as int)) == Some(
                (m as nat, sc as nat),
            ),
            None => numeral_of(s@.subrange(lo as int, hi as int)) is None,
        },
{
    let ghost t = s@.subrange(lo as int, hi as int);
    let k = find_byte(s, lo, hi, DOT);
    proof {
        lemma_first_index_bounds(t, DOT);
        assert(t.subrange(0, k - lo) =~= s@.subrange(lo as int, k as int));
    }
    let (flo, fhi) = if k < hi {
        proof {
            assert(t.subrange(k - lo + 1, t.len() as int) =~= s@.subrange(k + 1, hi as int));
        }
        (k + 1, hi)
    } else {
        assert(s@.subrange(hi as int, hi as int) =~= Seq::<u8>::empty());
        (hi, hi)
    };
    let n_whole = k - lo;
    let n_frac = fhi - flo;
    if n_whole + n_frac < 1 || n_whole + n_frac > MAX_DIGITS {
        return None;
    }
    if !digits_only(s, lo, k) || !digits_only(s, flo, fhi) {
        return None;
    }
    let w = digits_number(s, lo, k);
    let f = digits_number(s, flo, fhi);
    let ghost ws = s@.subrange(lo as int, k as int);
    let ghost fs = s@.subrange(flo as int, fhi as int);
    let p = power_of_ten(n_frac as u32);
    proof {
        lemma_pow10_max();
        lemma_digits_value_bound(ws);
        lemma_digits_value_bound(fs);
        lemma_pow10_add(n_whole as nat, n_frac as nat);
    }
    proof {
        lemma_pow10_monotonic((n_whole + n_frac) as nat, MAX_DIGITS as nat);
        let pw = pow10(n_whole as nat);
        let pf = pow10(n_frac as nat);
        assert((w as nat) * pf + (f as nat) < pw * pf) by (nonlinear_arith)
            requires
                (w as nat) < pw,
                (f as nat) < pf,
        ;
    }
    Some((w * p + f, n_frac as u32))
}

} // verus!
