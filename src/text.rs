//! Decimal rendering of numbers for human-readable messages.
use vstd::prelude::*;
use vstd::string::*;

verus! {

/// The ASCII digit for `d < 10`.
pub open spec fn digit_char(d: nat) -> char {
    if d == 0 { '0' } else if d == 1 { '1' } else if d == 2 { '2' } else if d == 3 { '3' }
    else if d == 4 { '4' } else if d == 5 { '5' } else if d == 6 { '6' } else if d == 7 { '7' }
    else if d == 8 { '8' } else { '9' }
}

/// Decimal digits of `n`, most significant first, without leading zeros.
pub open spec fn decimal(n: nat) -> Seq<char>
    decreases n,
{
    if n < 10 {
        seq![digit_char(n)]
    } else {
        decimal(n / 10).push(digit_char(n % 10))
    }
}

/// `num / den` rounded half up to one decimal place, as "I.F".
pub open spec fn tenths(num: nat, den: nat) -> Seq<char> {
    let t = (20 * num + den) / (2 * den);
    decimal(t / 10) + seq!['.'] + seq![digit_char(t % 10)]
}

/// Whether two strings hold the same characters.
pub fn str_eq(a: &str, b: &str) -> (r: bool)
    ensures
        r == (a@ == b@),
{
    let n = a.unicode_len();
    if n != b.unicode_len() {
        return false;
    }
    let mut i: usize = 0;
    while i < n
        invariant
            n == a@.len(),
            n == b@.len(),
            i <= n,
            forall|j: int| 0 <= j < i ==> a@[j] == b@[j],
        decreases n - i,
    {
        if a.get_char(i) != b.get_char(i) {
            return false;
        }
        i += 1;
    }
    assert(a@ =~= b@);
    true
}

/// Renders `num / den` with one decimal place.
pub fn tenths_text(num: u128, den: u128) -> (r: String)
    requires
        den > 0,
        num <= 0xf_ffff_ffff_ffff_ffff_ffff_ffff,
        den <= 0xf_ffff_ffff_ffff_ffff_ffff_ffff,
    ensures
        r@ == tenths(num as nat, den as nat),
{
    let t = (20 * num + den) / (2 * den);
    let mut r = decimal_text(t / 10);
    r.append(".");
    let d = digit_text((t % 10) as u64);
    r.append(d);
    proof {
        reveal_strlit(".");
    }
    r
}

/// The one-character string of a digit.
fn digit_text(d: u64) -> (r: &'static str)
    requires
        d < 10,
    ensures
        r@ == seq![digit_char(d as nat)],
{
    let r = if d == 0 { "0" } else if d == 1 { "1" } else if d == 2 { "2" } else if d == 3 { "3" }
    else if d == 4 { "4" } else if d == 5 { "5" } else if d == 6 { "6" } else if d == 7 { "7" }
    else if d == 8 { "8" } else { "9" };
    proof {
        reveal_strlit("0");
        reveal_strlit("1");
        reveal_strlit("2");
        reveal_strlit("3");
        reveal_strlit("4");
        reveal_strlit("5");
        reveal_strlit("6");
        reveal_strlit("7");
        reveal_strlit("8");
        reveal_strlit("9");
    }
    assert(r@ =~= seq![digit_char(d as nat)]);
    r
}

/// Decimal digits of `n`.
pub(crate) fn decimal_text(n: u128) -> (r: String)
    ensures
        r@ == decimal(n as nat),
    decreases n,
{
    if n < 10 {
        String::from_str(digit_text(n as u64))
    } else {
        let mut s = decimal_text(n / 10);
        let ghost head = s@;
        s.append(digit_text((n % 10) as u64));
        assert(s@ =~= head.push(digit_char((n % 10) as nat)));
        s
    }
}

} // verus!
