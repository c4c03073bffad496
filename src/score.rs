use vstd::prelude::*;

verus! {

/// The character of a decimal digit.
pub open spec fn digit_char(d: nat) -> char {
    if d == 0 { '0' }
    else if d == 1 { '1' }
    else if d == 2 { '2' }
    else if d == 3 { '3' }
    else if d == 4 { '4' }
    else if d == 5 { '5' }
    else if d == 6 { '6' }
    else if d == 7 { '7' }
    else if d == 8 { '8' }
    else { '9' }
}

/// The decimal digits of `n`, most significant first, without leading zeroes
/// (zero itself is the single digit `0`).
pub open spec fn decimal(n: nat) -> Seq<char>
    decreases n,
{
    if n < 10 {
        seq![digit_char(n)]
    } else {
        decimal(n / 10).push(digit_char(n % 10))
    }
}

/// `num` as shown on the score display: its decimal digits (after a minus
/// sign when negative), padded on the left with zeroes to five digits. A
/// negative number gets four zeroes before the sign.
pub open spec fn padded_score(num: int) -> Seq<char> {
    if num < 0 {
        Seq::new(4, |i: int| '0') + seq!['-'] + decimal((-num) as nat)
    } else {
        Seq::new((5 - decimal(num as nat).len()) as nat, |i: int| '0') + decimal(num as nat)
    }
}

/// A non-negative number has as many digits as the powers of ten it reaches.
proof fn lemma_decimal_len(n: nat)
    ensures
        decimal(n).len() >= 1,
        n < 10 ==> decimal(n).len() == 1,
        n < 100 ==> decimal(n).len() <= 2,
        n < 1000 ==> decimal(n).len() <= 3,
        n < 10000 ==> decimal(n).len() <= 4,
        n < 100000 ==> decimal(n).len() <= 5,
        n >= 10 ==> decimal(n).len() >= 2,
        n >= 100 ==> decimal(n).len() >= 3,
        n >= 1000 ==> decimal(n).len() >= 4,
        n >= 10000 ==> decimal(n).len() >= 5,
    decreases n,
{
    if n >= 10 {
        lemma_decimal_len(n / 10);
    }
}

fn digit_str(d: u32) -> (r: &'static str)
    requires
        d < 10,
    ensures
        r@ == seq![digit_char(d as nat)],
{
    proof {
        reveal_strlit("0");
        reveal_strlit("1");
        reveal_strlit("2");
        reveal_strlit("3");
        reveal_strlit("4");
        reveal_strlit("5");
        reveal_strlit("6");
        reveal_strlit("7");
        reveal_strlit("8");
        reveal_strlit("9");
    }
    match d {
        0 => "0",
        1 => "1",
        2 => "2",
        3 => "3",
        4 => "4",
        5 => "5",
        6 => "6",
        7 => "7",
        8 => "8",
        _ => "9",
    }
}

fn push_decimal(s: &mut String, n: u32)
    ensures
        final(s)@ == old(s)@ + decimal(n as nat),
    decreases n,
{
    if n >= 10 {
        push_decimal(s, n / 10);
    }
    s.append(digit_str(n % 10));
    assert(final(s)@ == old(s)@ + decimal(n as nat));
}

/// The score text: `num` padded with leading zeroes to five digits.
pub fn fill_leading_zeroes(num: i32) -> (r: String)
    requires
        num < 100000,
    ensures
        r@ == padded_score(num as int),
{
    let mut out = String::new();
    let magnitude: u32 = if num < 0 { (-(num as i64)) as u32 } else { num as u32 };
    proof {
        lemma_decimal_len(magnitude as nat);
    }
    let zeroes: usize = if num < 0 {
        4
    } else if num < 10 {
        4
    } else if num < 100 {
        3
    } else if num < 1000 {
        2
    } else if num < 10000 {
        1
    } else {
        0
    };
    let mut i: usize = 0;
    while i < zeroes
        invariant
            i <= zeroes,
            out@ == Seq::new(i as nat, |j: int| '0'),
        decreases zeroes - i,
    {
        proof {
            reveal_strlit("0");
        }
        out.append("0");
        assert(out@ =~= Seq::new((i + 1) as nat, |j: int| '0'));
        i = i + 1;
    }
    if num < 0 {
        proof {
            reveal_strlit("-");
        }
        out.append("-");
    }
    push_decimal(&mut out, magnitude);
    assert(out@ =~= padded_score(num as int));
    out
}

} // verus!
