//! Rendering a 256-bit amount as a decimal string with a fixed number of
//! fractional digits: the digit string is left-padded with zeros until it is
//! at least `decimals + 1` long, then a separator is inserted `decimals`
//! digits from the right.

use vstd::prelude::*;
use vstd::string::StringExecFns;
use crate::amount::Uint256;

verus! {

/// The decimal digit character for a value below ten.
pub open spec fn digit_char(d: nat) -> char {
    if d == 0 {
        '0'
    } else if d == 1 {
        '1'
    } else if d == 2 {
        '2'
    } else if d == 3 {
        '3'
    } else if d == 4 {
        '4'
    } else if d == 5 {
        '5'
    } else if d == 6 {
        '6'
    } else if d == 7 {
        '7'
    } else if d == 8 {
        '8'
    } else {
        '9'
    }
}

/// The decimal digit string of `n`, most significant digit first, with no
/// leading zeros (`0` itself is the single digit `0`).
pub open spec fn dec_digits(n: nat) -> Seq<char>
    decreases n,
{
    if n < 10 {
        seq![digit_char(n)]
    } else {
        dec_digits(n / 10) + seq![digit_char(n % 10)]
    }
}

/// A run of `k` zero digits.
pub open spec fn zeroes(k: nat) -> Seq<char> {
    Seq::new(k, |i| '0')
}

/// The digit string of `v` left-padded with zeros to at least `d + 1` digits.
pub open spec fn padded_digits(v: nat, d: nat) -> Seq<char> {
    let ds = dec_digits(v);
    if ds.len() >= d + 1 {
        ds
    } else {
        zeroes((d + 1 - ds.len()) as nat) + ds
    }
}

/// The rendered amount: the padded digit string with the separator inserted
/// `d` digits from the right.
pub open spec fn formatted(v: nat, d: nat) -> Seq<char> {
    let s = padded_digits(v, d);
    s.take(s.len() - d) + seq![','] + s.skip(s.len() - d)
}

/// Whether `c` is a decimal digit character.
pub open spec fn is_digit(c: char) -> bool {
    c == '0' || c == '1' || c == '2' || c == '3' || c == '4' || c == '5' || c == '6' || c == '7'
        || c == '8' || c == '9'
}

/// Every character of a decimal digit string is a digit.
pub proof fn lemma_dec_digits_are_digits(n: nat)
    ensures
        forall|i: int| 0 <= i < dec_digits(n).len() ==> is_digit(#[trigger] dec_digits(n)[i]),
    decreases n,
{
    if n < 10 {
        assert(dec_digits(n) == seq![digit_char(n)]);
    } else {
        lemma_dec_digits_are_digits(n / 10);
        assert forall|i: int| 0 <= i < dec_digits(n).len() implies is_digit(
            #[trigger] dec_digits(n)[i],
        ) by {
            if i < dec_digits(n / 10).len() {
                assert(dec_digits(n)[i] == dec_digits(n / 10)[i]);
            } else {
                assert(dec_digits(n)[i] == digit_char(n % 10));
            }
        }
    }
}

/// The digit string of a positive value never starts with a zero.
pub proof fn lemma_dec_digits_no_leading_zero(n: nat)
    requires
        n >= 1,
    ensures
        dec_digits(n)[0] != '0',
    decreases n,
{
    if n >= 10 {
        lemma_dec_digits_no_leading_zero(n / 10);
    }
}

/// The shape every rendered amount has, for any value and any decimal count:
/// one character more than the padded digit string, which itself is at least
/// `d + 1` digits long; the single separator stands exactly `d` digits from
/// the right; every other character is a decimal digit; and cutting the
/// separator back out yields the padded digit string, whose tail is the
/// digit string of the value itself — padded, never truncated.
pub proof fn lemma_format_shape(v: nat, d: nat)
    ensures
        formatted(v, d).len() == padded_digits(v, d).len() + 1,
        padded_digits(v, d).len() >= d + 1,
        formatted(v, d)[formatted(v, d).len() - 1 - d] == ',',
        forall|i: int|
            0 <= i < formatted(v, d).len() && i != formatted(v, d).len() - 1 - d ==> is_digit(
                #[trigger] formatted(v, d)[i],
            ),
        formatted(v, d).take(formatted(v, d).len() - 1 - d) + formatted(v, d).skip(
            formatted(v, d).len() - d,
        ) == padded_digits(v, d),
        padded_digits(v, d).skip(padded_digits(v, d).len() - dec_digits(v).len()) == dec_digits(
            v,
        ),
{
    let p = padded_digits(v, d);
    let f = formatted(v, d);
    let ds = dec_digits(v);
    lemma_dec_digits_are_digits(v);
    assert(forall|i: int| 0 <= i < p.len() ==> is_digit(#[trigger] p[i]));
    assert(f.len() == p.len() + 1);
    assert(f[f.len() - 1 - d] == ',');
    assert(forall|i: int| 0 <= i < f.len() && i != f.len() - 1 - d ==> is_digit(#[trigger] f[i]));
    assert(f.take(f.len() - 1 - d) + f.skip(f.len() - d) =~= p);
    assert(p.skip(p.len() - ds.len()) =~= ds);
}

/// The digit characters of a digit sequence read back to front: `ds` holds
/// digit values least significant first.
pub open spec fn rev_chars(ds: Seq<u64>) -> Seq<char> {
    Seq::new(ds.len(), |k: int| digit_char(ds[ds.len() - 1 - k] as nat))
}

/// Appends the single digit character of `d` to `s`.
fn push_digit(s: &mut String, d: u64)
    requires
        d < 10,
    ensures
        final(s)@ == old(s)@ + seq![digit_char(d as nat)],
{
    if d == 0 {
        s.append("0");
        proof {
            reveal_strlit("0");
            assert(s@ =~= old(s)@ + seq![digit_char(d as nat)]);
        }
    } else if d == 1 {
        s.append("1");
        proof {
            reveal_strlit("1");
            assert(s@ =~= old(s)@ + seq![digit_char(d as nat)]);
        }
    } else if d == 2 {
        s.append("2");
        proof {
            reveal_strlit("2");
            assert(s@ =~= old(s)@ + seq![digit_char(d as nat)]);
        }
    } else if d == 3 {
        s.append("3");
        proof {
            reveal_strlit("3");
            assert(s@ =~= old(s)@ + seq![digit_char(d as nat)]);
        }
    } else if d == 4 {
        s.append("4");
        proof {
            reveal_strlit("4");
            assert(s@ =~= old(s)@ + seq![digit_char(d as nat)]);
        }
    } else if d == 5 {
        s.append("5");
        proof {
            reveal_strlit("5");
            assert(s@ =~= old(s)@ + seq![digit_char(d as nat)]);
        }
    } else if d == 6 {
        s.append("6");
        proof {
            reveal_strlit("6");
            assert(s@ =~= old(s)@ + seq![digit_char(d as nat)]);
        }
    } else if d == 7 {
        s.append("7");
        proof {
            reveal_strlit("7");
            assert(s@ =~= old(s)@ + seq![digit_char(d as nat)]);
        }
    } else if d == 8 {
        s.append("8");
        proof {
            reveal_strlit("8");
            assert(s@ =~= old(s)@ + seq![digit_char(d as nat)]);
        }
    } else {
        s.append("9");
        proof {
            reveal_strlit("9");
            assert(s@ =~= old(s)@ + seq![digit_char(d as nat)]);
        }
    }
}

/// The digit values of `a`, least significant first.
fn dec_digits_rev(a: &Uint256) -> (ds: Vec<u64>)
    ensures
        rev_chars(ds@) == dec_digits(a.val()),
        forall|j: int| 0 <= j < ds@.len() ==> ds@[j] < 10,
        ds@.len() >= 1,
{
    let mut ds: Vec<u64> = Vec::new();
    if a.is_zero() {
        ds.push(0);
        proof {
            assert(rev_chars(ds@) =~= dec_digits(a.val()));
        }
        return ds;
    }
    let mut cur: Uint256 = *a;
    while !cur.is_zero()
        invariant
            cur.val() > 0 ==> dec_digits(a.val()) == dec_digits(cur.val()) + rev_chars(ds@),
            cur.val() == 0 ==> ds@.len() >= 1 && dec_digits(a.val()) == rev_chars(ds@),
            forall|j: int| 0 <= j < ds@.len() ==> ds@[j] < 10,
        decreases cur.val(),
    {
        let ghost old_ds = ds@;
        let ghost c = cur.val();
        let (q, r) = cur.divmod_small(10);
        ds.push(r);
        proof {
            assert(rev_chars(ds@) =~= seq![digit_char((c % 10) as nat)] + rev_chars(old_ds));
            if c >= 10 {
                assert(dec_digits(c) == dec_digits(c / 10) + seq![digit_char((c % 10) as nat)]);
                assert(dec_digits(c / 10) + (seq![digit_char((c % 10) as nat)] + rev_chars(old_ds))
                    =~= (dec_digits(c / 10) + seq![digit_char((c % 10) as nat)]) + rev_chars(
                    old_ds,
                ));
            } else {
                assert(dec_digits(c) == seq![digit_char((c % 10) as nat)]);
                assert(c % 10 == c);
                assert(c / 10 == 0);
                assert(dec_digits(c) + rev_chars(old_ds) =~= seq![digit_char((c % 10) as nat)]
                    + rev_chars(old_ds));
            }
            vstd::arithmetic::div_mod::lemma_div_decreases(c as int, 10);
        }
        cur = q;
    }
    ds
}

/// Renders `value` with `decimals` fractional digits, as a decimal string
/// with one separator `decimals` digits from the right; the digit string is
/// zero-padded so an integer part always remains.
pub fn format_with_padding(value: &Uint256, decimals: usize) -> (s: String)
    ensures
        s@ == formatted(value.val(), decimals as nat),
{
    let ghost v = value.val();
    let ghost d = decimals as nat;
    let ds = dec_digits_rev(value);
    let n = ds.len();
    let ghost digits = dec_digits(v);
    proof {
        assert(digits.len() == n);
        assert(forall|k: int|
            0 <= k < n ==> digits[k] == digit_char(ds@[n - 1 - k] as nat));
    }
    let mut s = String::new();
    if n > decimals {
        // the integer part comes from the digits themselves
        let mut i = n;
        while i > decimals
            invariant
                decimals <= i <= n,
                n == ds@.len(),
                n == digits.len(),
                n > decimals,
                forall|j: int| 0 <= j < ds@.len() ==> ds@[j] < 10,
                forall|k: int| 0 <= k < n ==> digits[k] == digit_char(ds@[n - 1 - k] as nat),
                s@ =~= digits.take(n - i),
            decreases i,
        {
            i = i - 1;
            push_digit(&mut s, ds[i]);
            proof {
                assert(s@ =~= digits.take(n - i));
            }
        }
        proof {
            assert(s@ =~= padded_digits(v, d).take(padded_digits(v, d).len() - d));
        }
    } else {
        // all padding: the integer part is a single zero
        push_digit(&mut s, 0);
        proof {
            assert(padded_digits(v, d).len() == d + 1);
            assert(padded_digits(v, d)[0] == '0');
            assert(s@ =~= padded_digits(v, d).take(1));
        }
    }
    proof {
        assert(s@ =~= padded_digits(v, d).take(padded_digits(v, d).len() - d));
    }
    s.append(",");
    proof {
        reveal_strlit(",");
        assert(s@ =~= padded_digits(v, d).take(padded_digits(v, d).len() - d) + seq![',']);
    }
    let ghost before_fraction = s@;
    if n <= decimals {
        // leading zeros of the fractional part
        let mut z = decimals - n;
        while z > 0
            invariant
                0 <= z <= decimals - n,
                n == ds@.len(),
                n <= decimals,
                s@ =~= before_fraction + zeroes(((decimals - n) - z) as nat),
            decreases z,
        {
            z = z - 1;
            push_digit(&mut s, 0);
            proof {
                assert(s@ =~= before_fraction + zeroes(((decimals - n) - z) as nat));
            }
        }
    }
    let ghost before_digits = s@;
    let k = if n > decimals {
        decimals
    } else {
        n
    };
    let mut i = k;
    while i > 0
        invariant
            0 <= i <= k,
            k <= n,
            n == ds@.len(),
            n == digits.len(),
            forall|j: int| 0 <= j < ds@.len() ==> ds@[j] < 10,
            forall|kk: int| 0 <= kk < n ==> digits[kk] == digit_char(ds@[n - 1 - kk] as nat),
            s@ =~= before_digits + digits.skip(n - k).take(k - i),
        decreases i,
    {
        i = i - 1;
        push_digit(&mut s, ds[i]);
        proof {
            assert(digits.skip(n - k).take(k - i) =~= digits.skip(n - k).take(k - i - 1).push(
                digits[n - 1 - i],
            ));
            assert(s@ =~= before_digits + digits.skip(n - k).take(k - i));
        }
    }
    proof {
        let p = padded_digits(v, d);
        assert(digits.skip(n - k).take(k as int) =~= digits.skip(n - k));
        if n > decimals {
            assert(p =~= digits);
            assert(s@ =~= p.take(p.len() - d) + seq![','] + p.skip(p.len() - d));
        } else {
            assert(p.skip(p.len() - d) =~= zeroes((d - n) as nat) + digits);
            assert(before_digits =~= p.take(p.len() - d) + seq![','] + zeroes((d - n) as nat));
            assert(s@ =~= p.take(p.len() - d) + seq![','] + p.skip(p.len() - d));
        }
        assert(s@ =~= formatted(v, d));
    }
    s
}

} // verus!
