//! Decimal rendering of integers as character sequences, used for the
//! listen address and for the signed registration message.

use vstd::prelude::*;
use vstd::string::StrSliceExecFns;
use vstd::string::StringExecFns;

verus! {

pub open spec fn digit_char(d: nat) -> char {
    if d == 0 {
        '0'
    } else if d == 1 {
        '1'
    } else if d == 2 {
        '2'
    } else if d == 3 {
        '3'
    } else if d == 4 {
        '4'
    } else if d == 5 {
        '5'
    } else if d == 6 {
        '6'
    } else if d == 7 {
        '7'
    } else if d == 8 {
        '8'
    } else {
        '9'
    }
}

/// The usual base-10 rendering of `n`, without leading zeros.
pub open spec fn dec_rep(n: nat) -> Seq<char>
    decreases n,
{
    if n < 10 {
        seq![digit_char(n)]
    } else {
        dec_rep(n / 10).push(digit_char(n % 10))
    }
}

/// Base-10 rendering of a signed value: a leading `-` for negatives.
pub open spec fn dec_rep_signed(t: int) -> Seq<char> {
    if t >= 0 {
        dec_rep(t as nat)
    } else {
        seq!['-'] + dec_rep((-t) as nat)
    }
}

fn digit_str(d: u64) -> (r: &'static str)
    requires
        d < 10,
    ensures
        r@ == seq![digit_char(d as nat)],
{
    let digits = "0123456789";
    proof {
        reveal_strlit("0123456789");
    }
    let r = digits.substring_ascii(d as usize, d as usize + 1);
    proof {
        assert(r@ =~= seq![digit_char(d as nat)]);
    }
    r
}

pub fn u64_to_dec(n: u64) -> (r: String)
    ensures
        r@ == dec_rep(n as nat),
    decreases n,
{
    if n < 10 {
        String::from_str(digit_str(n))
    } else {
        let prefix = u64_to_dec(n / 10);
        let r = prefix.concat(digit_str(n % 10));
        proof {
            assert(r@ =~= dec_rep((n / 10) as nat).push(digit_char((n % 10) as nat)));
        }
        r
    }
}

pub fn i64_to_dec(t: i64) -> (r: String)
    ensures
        r@ == dec_rep_signed(t as int),
{
    if t >= 0 {
        u64_to_dec(t as u64)
    } else {
        let mag: u64 = ((-(t + 1)) as u64) + 1;
        let tail = u64_to_dec(mag);
        let r = String::from_str("-").concat(tail.as_str());
        proof {
            reveal_strlit("-");
            assert(mag as int == -(t as int));
            assert(r@ =~= seq!['-'] + dec_rep((-(t as int)) as nat));
        }
        r
    }
}

} // verus!
