use vstd::prelude::*;
use vstd::string::StringExecFns;

verus! {

/// The character for one decimal digit.
pub open spec fn decimal_digit(d: int) -> char
    recommends
        0 <= d < 10,
{
    if d == 0 {
        '0'
    } else if d == 1 {
        '1'
    } else if d == 2 {
        '2'
    } else if d == 3 {
        '3'
    } else if d == 4 {
        '4'
    } else if d == 5 {
        '5'
    } else if d == 6 {
        '6'
    } else if d == 7 {
        '7'
    } else if d == 8 {
        '8'
    } else {
        '9'
    }
}

/// The decimal representation of `n`, without leading zeros.
pub open spec fn decimal_rep(n: int) -> Seq<char>
    recommends
        n >= 0,
    decreases n,
{
    if n < 10 {
        seq![decimal_digit(n)]
    } else {
        decimal_rep(n / 10) + seq![decimal_digit(n % 10)]
    }
}

/// A default candidate: `wayland-` followed by the number `k`.
pub open spec fn candidate_name(k: int) -> Seq<char> {
    "wayland-"@ + decimal_rep(k)
}

fn digit_str(d: u64) -> (r: &'static str)
    requires
        d < 10,
    ensures
        r@ == seq![decimal_digit(d as int)],
{
    let r: &'static str = if d == 0 {
        "0"
    } else if d == 1 {
        "1"
    } else if d == 2 {
        "2"
    } else if d == 3 {
        "3"
    } else if d == 4 {
        "4"
    } else if d == 5 {
        "5"
    } else if d == 6 {
        "6"
    } else if d == 7 {
        "7"
    } else if d == 8 {
        "8"
    } else {
        "9"
    };
    proof {
        reveal_strlit("0");
        reveal_strlit("1");
        reveal_strlit("2");
        reveal_strlit("3");
        reveal_strlit("4");
        reveal_strlit("5");
        reveal_strlit("6");
        reveal_strlit("7");
        reveal_strlit("8");
        reveal_strlit("9");
    }
    r
}

/// Renders `n` in decimal.
pub fn decimal_string(n: u64) -> (r: String)
    ensures
        r@ == decimal_rep(n as int),
    decreases n,
{
    if n < 10 {
        digit_str(n).to_owned()
    } else {
        let prefix = decimal_string(n / 10);
        prefix.concat(digit_str(n % 10))
    }
}

/// The default candidate names, `wayland-1` through `wayland-31`, in order.
/// The name numbered 0 is conventionally reserved, so the sequence starts
/// at 1; it stops at a fixed small bound to avoid unbounded probing.
pub fn default_candidates() -> (r: Vec<String>)
    ensures
        r@.len() == 31,
        forall|i: int| 0 <= i < 31 ==> #[trigger] r@[i]@ == candidate_name(i + 1),
{
    let mut names: Vec<String> = Vec::new();
    let mut k: u64 = 1;
    while k < 32
        invariant
            1 <= k <= 32,
            names@.len() == k - 1,
            forall|i: int| 0 <= i < k - 1 ==> #[trigger] names@[i]@ == candidate_name(i + 1),
        decreases 32 - k,
    {
        let mut s = "wayland-".to_owned();
        let digits = decimal_string(k);
        s.append(digits.as_str());
        names.push(s);
        k = k + 1;
    }
    names
}

} // verus!
