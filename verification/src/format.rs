//! Number formatting: fixed-width hexadecimal and zero-padded decimal, as
//! `format!("{:016x}")` and `format!("{:04}")` write them.

use vstd::prelude::*;

verus! {

/// The digit characters, lowest first.
pub open spec fn digit_char(d: nat) -> char {
    if d < 10 {
        (d + 48) as char
    } else {
        (d + 87) as char
    }
}

/// The last `count` digits of `n` in `base`, most significant first.
pub open spec fn fixed_digits(n: nat, count: nat, base: nat) -> Seq<char>
    decreases count,
{
    if count == 0 || base == 0 {
        seq![]
    } else {
        fixed_digits(n / base, (count - 1) as nat, base).push(digit_char(n % base))
    }
}

/// The decimal digits of `n`, without leading zeros (`"0"` for zero).
pub open spec fn decimal(n: nat) -> Seq<char>
    decreases n,
{
    if n < 10 {
        seq![digit_char(n)]
    } else {
        decimal(n / 10).push(digit_char(n % 10))
    }
}

/// `n` in decimal, left-padded with zeros to at least `width` characters.
pub open spec fn padded_decimal(n: nat, width: nat) -> Seq<char> {
    let pad: nat = if width > decimal(n).len() { (width - decimal(n).len()) as nat } else { 0 };
    Seq::new(pad, |i: int| '0') + decimal(n)
}

// ── Order of digit strings ────────────────────────────────────────────────────

/// `10^k`.
pub open spec fn pow10(k: nat) -> nat
    decreases k,
{
    if k == 0 {
        1
    } else {
        10 * pow10((k - 1) as nat)
    }
}

/// `a` comes before `b` in string order, both of the same length: at the
/// first place they differ, `a` has the smaller character.
pub open spec fn text_before(a: Seq<char>, b: Seq<char>) -> bool {
    &&& a.len() == b.len()
    &&& exists|k: int| 0 <= k < a.len() && a.take(k) == b.take(k) && (a[k] as u32) < (b[k] as u32)
}

/// Texts that come one before the other stay so when equally long texts follow.
pub proof fn lemma_before_then(a1: Seq<char>, a2: Seq<char>, b1: Seq<char>, b2: Seq<char>)
    requires
        text_before(a1, a2),
        b1.len() == b2.len(),
    ensures
        text_before(a1 + b1, a2 + b2),
{
    let k = choose|k: int| 0 <= k < a1.len() && a1.take(k) == a2.take(k) && (a1[k] as u32) < (a2[k] as u32);
    assert((a1 + b1).take(k) =~= a1.take(k));
    assert((a2 + b2).take(k) =~= a2.take(k));
    assert((a1 + b1)[k] == a1[k] && (a2 + b2)[k] == a2[k]);
}

/// A common start keeps the order of what follows.
pub proof fn lemma_before_after(p: Seq<char>, b1: Seq<char>, b2: Seq<char>)
    requires
        text_before(b1, b2),
    ensures
        text_before(p + b1, p + b2),
{
    let k = choose|k: int| 0 <= k < b1.len() && b1.take(k) == b2.take(k) && (b1[k] as u32) < (b2[k] as u32);
    let j = p.len() + k;
    assert((p + b1).take(j) =~= p + b1.take(k));
    assert((p + b2).take(j) =~= p + b2.take(k));
    assert((p + b1)[j] == b1[k] && (p + b2)[j] == b2[k]);
}

proof fn lemma_zero_digits(k: nat)
    ensures
        fixed_digits(0, k, 10) == Seq::new(k, |i: int| '0'),
    decreases k,
{
    if k > 0 {
        lemma_zero_digits((k - 1) as nat);
        assert(fixed_digits(0, k, 10) =~= Seq::new(k, |i: int| '0'));
    }
}

/// A zero-padded number is its last `L` digits, `L` the padded length, and
/// is below `10^L`; below `10^w` (`w > 0`) the padded length is `w`.
pub proof fn lemma_padded_is_fixed(n: nat, w: nat)
    ensures
        padded_decimal(n, w).len() >= w,
        padded_decimal(n, w) == fixed_digits(n, padded_decimal(n, w).len(), 10),
        n < pow10(padded_decimal(n, w).len()),
        w > 0 && n < pow10(w) ==> padded_decimal(n, w).len() == w,
    decreases n,
{
    let p = padded_decimal(n, w);
    let l = p.len();
    if n < 10 {
        assert(decimal(n) == seq![digit_char(n)]);
        let z: nat = if w > 1 { (w - 1) as nat } else { 0 };
        assert(l == z + 1);
        lemma_zero_digits(z);
        assert(n / 10 == 0 && n % 10 == n);
        assert(fixed_digits(n, l, 10) == fixed_digits(0, z, 10).push(digit_char(n)));
        assert(p =~= fixed_digits(n, l, 10));
        assert(pow10(l) == 10 * pow10(z));
        assert(pow10(z) >= 1) by {
            lemma_pow10_pos(z);
        }
        if w > 0 && n < pow10(w) {
            assert(l == w);
        }
    } else {
        let q = n / 10;
        let w2: nat = if w > 0 { (w - 1) as nat } else { 0 };
        lemma_padded_is_fixed(q, w2);
        let p2 = padded_decimal(q, w2);
        assert(decimal(n) == decimal(q).push(digit_char(n % 10)));
        assert(p =~= p2.push(digit_char(n % 10)));
        assert(fixed_digits(n, l, 10) == fixed_digits(q, (l - 1) as nat, 10).push(digit_char(n % 10)));
        assert(pow10(l) == 10 * pow10(p2.len()));
        assert(n < pow10(l)) by (nonlinear_arith)
            requires
                q == n / 10,
                q < pow10(p2.len()),
                pow10(l) == 10 * pow10(p2.len()),
        ;
        if w > 0 && n < pow10(w) {
            assert(w > 1) by {
                if w == 1 {
                    assert(pow10(1) == 10);
                }
            }
            assert(pow10(w) == 10 * pow10(w2));
            assert(q < pow10(w2)) by (nonlinear_arith)
                requires
                    q == n / 10,
                    n < pow10(w),
                    pow10(w) == 10 * pow10(w2),
            ;
        }
    }
}

proof fn lemma_pow10_pos(k: nat)
    ensures
        pow10(k) >= 1,
    decreases k,
{
    if k > 0 {
        lemma_pow10_pos((k - 1) as nat);
    }
}

/// Below `10^l`, a smaller number has a smaller `l`-digit text.
pub proof fn lemma_fixed_digits_order(n1: nat, n2: nat, l: nat)
    requires
        n1 < n2 < pow10(l),
    ensures
        text_before(fixed_digits(n1, l, 10), fixed_digits(n2, l, 10)),
    decreases l,
{
    if l == 0 {
        assert(false);
    } else {
        let l1 = (l - 1) as nat;
        let q1 = n1 / 10;
        let q2 = n2 / 10;
        let a = fixed_digits(q1, l1, 10);
        let b = fixed_digits(q2, l1, 10);
        lemma_digits_len(q1, l1);
        lemma_digits_len(q2, l1);
        assert(q1 <= q2 && q2 < pow10(l1)) by (nonlinear_arith)
            requires
                q1 == n1 / 10,
                q2 == n2 / 10,
                n1 < n2,
                n2 < pow10(l),
                pow10(l) == 10 * pow10(l1),
        ;
        let x = digit_char(n1 % 10);
        let y = digit_char(n2 % 10);
        if q1 < q2 {
            lemma_fixed_digits_order(q1, q2, l1);
            lemma_before_then(a, b, seq![x], seq![y]);
            assert(a + seq![x] == fixed_digits(n1, l, 10));
            assert(b + seq![y] == fixed_digits(n2, l, 10));
        } else {
            assert(n1 % 10 < n2 % 10) by (nonlinear_arith)
                requires
                    n1 / 10 == n2 / 10,
                    n1 < n2,
            ;
            assert((x as u32) < (y as u32)) by {
                assert(x as int == n1 % 10 + 48);
                assert(y as int == n2 % 10 + 48);
            }
            let f1 = fixed_digits(n1, l, 10);
            let f2 = fixed_digits(n2, l, 10);
            assert(f1 == a.push(x) && f2 == b.push(y));
            assert(f1.take(l1 as int) =~= a);
            assert(f2.take(l1 as int) =~= b);
            assert(f1[l1 as int] == x && f2[l1 as int] == y);
        }
    }
}

proof fn lemma_digits_len(n: nat, l: nat)
    ensures
        fixed_digits(n, l, 10).len() == l,
    decreases l,
{
    if l > 0 {
        lemma_digits_len(n / 10, (l - 1) as nat);
    }
}

/// Two numbers zero-padded to the same width whose texts have the same
/// length: the smaller comes first in string order.
pub proof fn lemma_padded_order(n1: nat, n2: nat, w: nat)
    requires
        n1 < n2,
        padded_decimal(n1, w).len() == padded_decimal(n2, w).len(),
    ensures
        text_before(padded_decimal(n1, w), padded_decimal(n2, w)),
{
    lemma_padded_is_fixed(n1, w);
    lemma_padded_is_fixed(n2, w);
    lemma_fixed_digits_order(n1, n2, padded_decimal(n2, w).len());
}

fn digit(d: u64) -> (c: char)
    requires
        d < 16,
    ensures
        c == digit_char(d as nat),
{
    if d < 10 {
        ((d as u8) + 48) as char
    } else {
        ((d as u8) + 87) as char
    }
}

/// The last `count` digits of `n` in `base`.
pub fn fixed_digits_of(n: u64, count: usize, base: u64) -> (v: Vec<char>)
    requires
        2 <= base <= 16,
    ensures
        v@ == fixed_digits(n as nat, count as nat, base as nat),
    decreases count,
{
    if count == 0 {
        Vec::new()
    } else {
        let mut v = fixed_digits_of(n / base, count - 1, base);
        v.push(digit(n % base));
        v
    }
}

/// `format!("{:016x}", n)`: a `u64` in exactly 16 lower-case hex digits.
pub fn hex16(n: u64) -> (v: Vec<char>)
    ensures
        v@ == fixed_digits(n as nat, 16, 16),
{
    fixed_digits_of(n, 16, 16)
}

/// The decimal digits of `n`.
pub fn decimal_of(n: u64) -> (v: Vec<char>)
    ensures
        v@ == decimal(n as nat),
        v@.len() >= 1,
    decreases n,
{
    if n < 10 {
        let mut v = Vec::new();
        v.push(digit(n));
        v
    } else {
        let mut v = decimal_of(n / 10);
        v.push(digit(n % 10));
        v
    }
}

/// `format!("{:0w$}", n)`: `n` in decimal, zero-padded to `width`.
pub fn padded_decimal_of(n: u64, width: usize) -> (v: Vec<char>)
    ensures
        v@ == padded_decimal(n as nat, width as nat),
{
    let d = decimal_of(n);
    let pad: usize = if width > d.len() { width - d.len() } else { 0 };
    let mut v: Vec<char> = Vec::new();
    let mut i: usize = 0;
    while i < pad
        invariant
            i <= pad,
            v@ == Seq::new(i as nat, |j: int| '0'),
        decreases pad - i,
    {
        v.push('0');
        assert(v@ =~= Seq::new((i + 1) as nat, |j: int| '0'));
        i += 1;
    }
    let mut k: usize = 0;
    let ghost zeros = v@;
    while k < d.len()
        invariant
            k <= d.len(),
            v@ == zeros + d@.take(k as int),
        decreases d.len() - k,
    {
        v.push(d[k]);
        assert(v@ =~= zeros + d@.take(k + 1));
        k += 1;
    }
    assert(d@.take(d.len() as int) =~= d@);
    v
}

} // verus!
