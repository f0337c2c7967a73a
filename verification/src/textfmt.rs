//! Verified construction of the decimal number text that the library's
//! messages and reports embed.

use vstd::prelude::*;
use vstd::string::*;

verus! {

/// The character for one decimal digit.
pub open spec fn spec_digit(d: nat) -> char {
    if d == 0 {
        '0'
    } else if d == 1 {
        '1'
    } else if d == 2 {
        '2'
    } else if d == 3 {
        '3'
    } else if d == 4 {
        '4'
    } else if d == 5 {
        '5'
    } else if d == 6 {
        '6'
    } else if d == 7 {
        '7'
    } else if d == 8 {
        '8'
    } else {
        '9'
    }
}

/// The decimal digit string of a natural number, most significant digit
/// first, with no leading zeroes (a lone zero for 0).
pub open spec fn spec_dec(n: nat) -> Seq<char>
    decreases n,
{
    if n < 10 {
        seq![spec_digit(n)]
    } else {
        spec_dec(n / 10).push(spec_digit(n % 10))
    }
}

/// The decimal text of a signed number: a minus sign before the digits of
/// the absolute value.
pub open spec fn spec_dec_signed(n: int) -> Seq<char> {
    if n < 0 {
        seq!['-'] + spec_dec((-n) as nat)
    } else {
        spec_dec(n as nat)
    }
}

fn digit_str(d: u64) -> (r: &'static str)
    requires
        d < 10,
    ensures
        r@ =~= seq![spec_digit(d as nat)],
{
    proof {
        reveal_strlit("0");
        reveal_strlit("1");
        reveal_strlit("2");
        reveal_strlit("3");
        reveal_strlit("4");
        reveal_strlit("5");
        reveal_strlit("6");
        reveal_strlit("7");
        reveal_strlit("8");
        reveal_strlit("9");
    }
    if d == 0 {
        "0"
    } else if d == 1 {
        "1"
    } else if d == 2 {
        "2"
    } else if d == 3 {
        "3"
    } else if d == 4 {
        "4"
    } else if d == 5 {
        "5"
    } else if d == 6 {
        "6"
    } else if d == 7 {
        "7"
    } else if d == 8 {
        "8"
    } else {
        "9"
    }
}

/// Appends the decimal digits of `n` to `s`.
pub fn push_u64(s: &mut String, n: u64)
    ensures
        final(s)@ == old(s)@ + spec_dec(n as nat),
    decreases n,
{
    if n < 10 {
        s.append(digit_str(n));
    } else {
        push_u64(s, n / 10);
        s.append(digit_str(n % 10));
    }
}

/// Appends the decimal digits of `n` to `s`.
pub fn push_u128(s: &mut String, n: u128)
    ensures
        final(s)@ == old(s)@ + spec_dec(n as nat),
    decreases n,
{
    if n < 10 {
        s.append(digit_str(n as u64));
    } else {
        push_u128(s, n / 10);
        s.append(digit_str((n % 10) as u64));
    }
}

/// Appends the decimal text of the difference `a - b` to `s`: plain
/// digits when `a >= b`, a minus sign and the magnitude otherwise.
pub fn push_diff_signed(s: &mut String, a: usize, b: usize)
    ensures
        final(s)@ == old(s)@ + spec_dec_signed(a - b),
{
    if a >= b {
        push_u64(s, (a - b) as u64);
    } else {
        s.append("-");
        push_u64(s, (b - a) as u64);
        proof {
            reveal_strlit("-");
            assert("-"@ =~= seq!['-']);
            assert(old(s)@ + "-"@ + spec_dec((b - a) as nat) =~= old(s)@ + (seq!['-'] + spec_dec(
                (b - a) as nat,
            )));
        }
    }
}

/// Appends the decimal text of a signed number to `s`.
pub fn push_i64(s: &mut String, n: i64)
    ensures
        final(s)@ == old(s)@ + spec_dec_signed(n as int),
{
    if n < 0 {
        let mag: u64 = ((-(n + 1)) as u64) + 1;
        proof {
            assert(mag == -(n as int));
        }
        s.append("-");
        push_u64(s, mag);
        proof {
            reveal_strlit("-");
            assert("-"@ =~= seq!['-']);
            assert(old(s)@ + "-"@ + spec_dec(mag as nat) =~= old(s)@ + (seq!['-'] + spec_dec(
                mag as nat,
            )));
        }
    } else {
        push_u64(s, n as u64);
    }
}

/// Appends the decimal digits of a usize to `s`.
pub fn push_usize(s: &mut String, n: usize)
    ensures
        final(s)@ == old(s)@ + spec_dec(n as nat),
{
    push_u64(s, n as u64);
}

/// The decimal digit string of a number, as a fresh String.
pub fn u64_to_string(n: u64) -> (r: String)
    ensures
        r@ == spec_dec(n as nat),
{
    let mut s = String::new();
    push_u64(&mut s, n);
    proof {
        assert(Seq::<char>::empty() + spec_dec(n as nat) =~= spec_dec(n as nat));
    }
    s
}

/// The decimal digit string of a usize, as a fresh String.
pub fn usize_to_string(n: usize) -> (r: String)
    ensures
        r@ == spec_dec(n as nat),
{
    u64_to_string(n as u64)
}

/// The first `i` of `items` joined with `sep`.
pub open spec fn spec_join_prefix(items: Seq<Seq<char>>, sep: Seq<char>, i: int) -> Seq<char>
    decreases i,
{
    if i <= 0 {
        Seq::empty()
    } else if i == 1 {
        items[0]
    } else {
        spec_join_prefix(items, sep, i - 1) + sep + items[i - 1]
    }
}

/// All of `items` joined with `sep`.
pub open spec fn spec_join(items: Seq<Seq<char>>, sep: Seq<char>) -> Seq<char> {
    spec_join_prefix(items, sep, items.len() as int)
}

/// Appends `items` joined with `sep` to `s`.
pub fn push_joined(s: &mut String, items: &Vec<String>, sep: &str)
    ensures
        final(s)@ == old(s)@ + spec_join(items@.map_values(|t: String| t@), sep@),
{
    let ghost views = items@.map_values(|t: String| t@);
    let n = items.len();
    let mut k: usize = 0;
    while k < n
        invariant
            k <= n,
            n == items@.len(),
            views == items@.map_values(|t: String| t@),
            s@ == old(s)@ + spec_join_prefix(views, sep@, k as int),
        decreases n - k,
    {
        if k > 0 {
            s.append(sep);
        }
        s.append(items[k].as_str());
        proof {
            if k == 0 {
                assert(spec_join_prefix(views, sep@, 1) == views[0]);
                assert(old(s)@ + Seq::<char>::empty() + views[0] =~= old(s)@ + spec_join_prefix(
                    views,
                    sep@,
                    1,
                ));
            } else {
                assert(spec_join_prefix(views, sep@, k + 1) == spec_join_prefix(views, sep@, k as int)
                    + sep@ + views[k as int]);
                assert(old(s)@ + spec_join_prefix(views, sep@, k as int) + sep@ + views[k as int]
                    =~= old(s)@ + spec_join_prefix(views, sep@, k + 1));
            }
        }
        k = k + 1;
    }
}

} // verus!
