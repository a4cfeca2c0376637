use vstd::prelude::*;
use vstd::string::StringExecFns;

verus! {

/// The character for one decimal digit value.
pub open spec fn dec_digit_char(d: nat) -> char {
    if d == 0 {
        '0'
    } else if d == 1 {
        '1'
    } else if d == 2 {
        '2'
    } else if d == 3 {
        '3'
    } else if d == 4 {
        '4'
    } else if d == 5 {
        '5'
    } else if d == 6 {
        '6'
    } else if d == 7 {
        '7'
    } else if d == 8 {
        '8'
    } else {
        '9'
    }
}

/// The usual decimal writing of `n`: most significant digit first, no sign,
/// no leading zeros (a single `0` for zero).
pub open spec fn dec_rep(n: nat) -> Seq<char>
    decreases n,
{
    if n < 10 {
        seq![dec_digit_char(n)]
    } else {
        dec_rep(n / 10) + seq![dec_digit_char(n % 10)]
    }
}

/// The one-character string for a digit value.
fn digit_str(d: u32) -> (s: &'static str)
    requires
        d < 10,
    ensures
        s@ == seq![dec_digit_char(d as nat)],
{
    let s: &'static str = match d {
        0 => "0",
        1 => "1",
        2 => "2",
        3 => "3",
        4 => "4",
        5 => "5",
        6 => "6",
        7 => "7",
        8 => "8",
        _ => "9",
    };
    proof {
        reveal_strlit("0");
        reveal_strlit("1");
        reveal_strlit("2");
        reveal_strlit("3");
        reveal_strlit("4");
        reveal_strlit("5");
        reveal_strlit("6");
        reveal_strlit("7");
        reveal_strlit("8");
        reveal_strlit("9");
        assert(s@ =~= seq![dec_digit_char(d as nat)]);
    }
    s
}

/// `n` written in decimal, exactly as `dec_rep` states it.
pub fn decimal_string(n: u32) -> (s: String)
    ensures
        s@ == dec_rep(n as nat),
{
    let mut v: u32 = n / 10;
    let mut s: String = digit_str(n % 10).to_owned();
    while v > 0
        invariant
            v == 0 ==> s@ == dec_rep(n as nat),
            v > 0 ==> dec_rep(n as nat) =~= dec_rep(v as nat) + s@,
        decreases v,
    {
        let d = digit_str(v % 10).to_owned();
        let ghost old_v = v as nat;
        s = d.concat(s.as_str());
        v = v / 10;
        proof {
            if v == 0 {
                assert(s@ =~= dec_rep(n as nat));
            } else {
                assert(dec_rep(n as nat) =~= dec_rep(v as nat) + s@);
            }
        }
    }
    s
}

/// The in-game score banner: `Score: ` followed by the score in decimal.
pub fn score_line(score: i32) -> (s: String)
    requires
        0 <= score,
    ensures
        s@ == "Score: "@ + dec_rep(score as nat),
{
    let digits = decimal_string(score as u32);
    "Score: ".to_owned().concat(digits.as_str())
}

/// The game-over tally: `But you earned <score> points`.
pub fn earned_line(score: i32) -> (s: String)
    requires
        0 <= score,
    ensures
        s@ == "But you earned "@ + dec_rep(score as nat) + " points"@,
{
    let digits = decimal_string(score as u32);
    "But you earned ".to_owned().concat(digits.as_str()).concat(" points")
}

} // verus!
