//! Decimal text of integers, as the target language spells numbers.
use vstd::prelude::*;

verus! {

/// The character of a decimal digit.
pub open spec fn digit_char(d: nat) -> char {
    if d == 0 { '0' }
    else if d == 1 { '1' }
    else if d == 2 { '2' }
    else if d == 3 { '3' }
    else if d == 4 { '4' }
    else if d == 5 { '5' }
    else if d == 6 { '6' }
    else if d == 7 { '7' }
    else if d == 8 { '8' }
    else { '9' }
}

/// The decimal digits of `n`, most significant first, with no leading zero.
pub open spec fn dec(n: nat) -> Seq<char>
    decreases n,
{
    if n < 10 {
        seq![digit_char(n)]
    } else {
        dec(n / 10) + seq![digit_char(n % 10)]
    }
}

/// `n` zero characters.
pub open spec fn zeros(n: nat) -> Seq<char> {
    Seq::new(n, |i: int| '0')
}

/// The digits of `n` with leading zeros up to `width` characters.
pub open spec fn dec_padded(n: nat, width: nat) -> Seq<char> {
    if dec(n).len() < width {
        zeros((width - dec(n).len()) as nat) + dec(n)
    } else {
        dec(n)
    }
}

fn digit_str(d: u64) -> (r: &'static str)
    requires
        d < 10,
    ensures
        r@ == seq![digit_char(d as nat)],
{
    proof {
        reveal_strlit("0");
        reveal_strlit("1");
        reveal_strlit("2");
        reveal_strlit("3");
        reveal_strlit("4");
        reveal_strlit("5");
        reveal_strlit("6");
        reveal_strlit("7");
        reveal_strlit("8");
        reveal_strlit("9");
    }
    let r = if d == 0 { "0" }
    else if d == 1 { "1" }
    else if d == 2 { "2" }
    else if d == 3 { "3" }
    else if d == 4 { "4" }
    else if d == 5 { "5" }
    else if d == 6 { "6" }
    else if d == 7 { "7" }
    else if d == 8 { "8" }
    else { "9" };
    assert(r@ =~= seq![digit_char(d as nat)]);
    r
}

/// Appends the decimal digits of `n` to `out`.
pub fn push_dec(out: &mut String, n: u64)
    ensures
        final(out)@ == old(out)@ + dec(n as nat),
    decreases n,
{
    if n >= 10 {
        push_dec(out, n / 10);
    }
    let d = digit_str(n % 10);
    out.append(d);
    proof {
        if n >= 10 {
            assert(final(out)@ =~= old(out)@ + dec(n as nat));
        } else {
            assert(final(out)@ =~= old(out)@ + dec(n as nat));
        }
    }
}

/// Appends `n` zero characters to `out`.
pub fn push_zeros(out: &mut String, n: u64)
    ensures
        final(out)@ == old(out)@ + zeros(n as nat),
{
    let ghost start = out@;
    let mut i: u64 = 0;
    while i < n
        invariant
            i <= n,
            out@ == start + zeros(i as nat),
        decreases n - i,
    {
        proof { reveal_strlit("0"); }
        out.append("0");
        i = i + 1;
        assert(out@ =~= start + zeros(i as nat));
    }
}

/// `10` to the power `p`.
pub open spec fn pow10(p: nat) -> nat
    decreases p,
{
    if p == 0 { 1 } else { 10 * pow10((p - 1) as nat) }
}

/// Drops trailing zero digits of a fraction `fr` of `p` digits: the digits
/// that remain, and how many.
pub open spec fn strip_zeros(fr: nat, p: nat) -> (nat, nat)
    decreases p,
{
    if p > 0 && fr % 10 == 0 { strip_zeros(fr / 10, (p - 1) as nat) } else { (fr, p) }
}

/// The shortest decimal text of `magnitude / 10^places`, signed by `negative`:
/// no fraction when it is whole, and no trailing zero in the fraction.
pub open spec fn number_text(negative: bool, magnitude: nat, places: nat) -> Seq<char> {
    let ip = magnitude / pow10(places);
    let st = strip_zeros(magnitude % pow10(places), places);
    (if negative { seq!['-'] } else { seq![] }) + dec(ip) + if st.1 == 0 {
        seq![]
    } else {
        seq!['.'] + dec_padded(st.0, st.1)
    }
}

pub proof fn lemma_pow10_positive(p: nat)
    ensures
        pow10(p) >= 1,
    decreases p,
{
    if p > 0 {
        lemma_pow10_positive((p - 1) as nat);
    }
}

pub proof fn lemma_pow10_monotone(a: nat, b: nat)
    requires
        a <= b,
    ensures
        pow10(a) <= pow10(b),
    decreases b,
{
    if a < b {
        lemma_pow10_monotone(a, (b - 1) as nat);
        lemma_pow10_positive((b - 1) as nat);
    }
}

/// The number of decimal digits of `n`.
pub fn dec_len(n: u64) -> (r: u64)
    ensures
        r as nat == dec(n as nat).len(),
        r <= 20,
    decreases n,
{
    if n >= 10 {
        let k = dec_len(n / 10);
        proof {
            if k == 20 {
                assert(false) by {
                    lemma_dec_len_bound(n as nat / 10);
                }
            }
        }
        k + 1
    } else {
        1
    }
}

pub proof fn lemma_dec_len_bound(n: nat)
    requires
        n < 0x1_0000_0000_0000_0000,
    ensures
        dec(n).len() <= 20,
        n < 10_000_000_000_000_000_000 ==> dec(n).len() <= 19,
{
    lemma_dec_len_le(n, 20);
    lemma_dec_len_le(n, 19);
    lemma_pow10_20();
}

pub proof fn lemma_pow10_20()
    ensures
        pow10(19) == 10_000_000_000_000_000_000,
        pow10(20) == 100_000_000_000_000_000_000,
{
    reveal_with_fuel(pow10, 21);
}

/// Below `10^k`, a number has at most `k` digits.
pub proof fn lemma_dec_len_le(n: nat, k: nat)
    ensures
        n < pow10(k) && k >= 1 ==> dec(n).len() <= k,
    decreases n,
{
    if n >= 10 && n < pow10(k) && k >= 1 {
        lemma_dec_len_le(n / 10, (k - 1) as nat);
        if k == 1 {
            reveal_with_fuel(pow10, 2);
        }
    }
}

pub fn pow10_u64(p: u8) -> (r: u64)
    requires
        p <= 19,
    ensures
        r as nat == pow10(p as nat),
{
    let mut r: u64 = 1;
    let mut i: u8 = 0;
    while i < p
        invariant
            i <= p <= 19,
            r as nat == pow10(i as nat),
        decreases p - i,
    {
        proof {
            lemma_pow10_monotone(i as nat + 1, 19);
            lemma_pow10_20();
        }
        r = r * 10;
        i = i + 1;
    }
    r
}

/// Appends the text of `magnitude / 10^places`, signed by `negative`.
pub fn push_number(out: &mut String, negative: bool, magnitude: u64, places: u8)
    ensures
        final(out)@ == old(out)@ + number_text(negative, magnitude as nat, places as nat),
{
    let ghost p0 = places as nat;
    let (ip, fr0) = if places <= 19 {
        let pw = pow10_u64(places);
        proof {
            lemma_pow10_positive(places as nat);
        }
        (magnitude / pw, magnitude % pw)
    } else {
        proof {
            lemma_pow10_monotone(20, places as nat);
            lemma_pow10_20();
            vstd::arithmetic::div_mod::lemma_basic_div_specific_divisor(pow10(p0) as int);
            assert((magnitude as int) / (pow10(p0) as int) == 0);
            vstd::arithmetic::div_mod::lemma_small_mod(magnitude as nat, pow10(p0));
        }
        (0u64, magnitude)
    };
    assert(ip as nat == magnitude as nat / pow10(p0));
    assert(fr0 as nat == magnitude as nat % pow10(p0));
    let mut fr = fr0;
    let mut k = places;
    while k > 0 && fr % 10 == 0
        invariant
            strip_zeros(fr as nat, k as nat) == strip_zeros(fr0 as nat, p0),
        decreases k,
    {
        fr = fr / 10;
        k = k - 1;
    }
    let ghost start = out@;
    proof {
        reveal_strlit("-");
        reveal_strlit(".");
    }
    if negative {
        out.append("-");
    }
    push_dec(out, ip);
    if k > 0 {
        out.append(".");
        let len = dec_len(fr);
        if len < k as u64 {
            push_zeros(out, k as u64 - len);
        }
        push_dec(out, fr);
    }
    assert(out@ =~= start + number_text(negative, magnitude as nat, places as nat));
}

} // verus!
