//! Verified plain-text rendering of numbers and byte sequences, used when an
//! HTTP body is not valid text and has to be shown as a listing of its bytes.

use vstd::prelude::*;

verus! {

use vstd::string::StringExecFns;

/// The decimal digit `d` as a character.
pub open spec fn digit_char(d: nat) -> char {
    if d == 0 {
        '0'
    } else if d == 1 {
        '1'
    } else if d == 2 {
        '2'
    } else if d == 3 {
        '3'
    } else if d == 4 {
        '4'
    } else if d == 5 {
        '5'
    } else if d == 6 {
        '6'
    } else if d == 7 {
        '7'
    } else if d == 8 {
        '8'
    } else {
        '9'
    }
}

/// The decimal rendering of `n`, most significant digit first, without
/// leading zeroes.
pub open spec fn dec_digits(n: nat) -> Seq<char>
    decreases n,
{
    if n < 10 {
        seq![digit_char(n)]
    } else {
        dec_digits(n / 10) + seq![digit_char(n % 10)]
    }
}

fn digit_str(d: u8) -> (r: &'static str)
    requires
        d < 10,
    ensures
        r@ == seq![digit_char(d as nat)],
{
    proof {
        reveal_strlit("0");
        reveal_strlit("1");
        reveal_strlit("2");
        reveal_strlit("3");
        reveal_strlit("4");
        reveal_strlit("5");
        reveal_strlit("6");
        reveal_strlit("7");
        reveal_strlit("8");
        reveal_strlit("9");
        assert("0"@ =~= seq![digit_char(0)]);
        assert("1"@ =~= seq![digit_char(1)]);
        assert("2"@ =~= seq![digit_char(2)]);
        assert("3"@ =~= seq![digit_char(3)]);
        assert("4"@ =~= seq![digit_char(4)]);
        assert("5"@ =~= seq![digit_char(5)]);
        assert("6"@ =~= seq![digit_char(6)]);
        assert("7"@ =~= seq![digit_char(7)]);
        assert("8"@ =~= seq![digit_char(8)]);
        assert("9"@ =~= seq![digit_char(9)]);
    }
    match d {
        0 => "0",
        1 => "1",
        2 => "2",
        3 => "3",
        4 => "4",
        5 => "5",
        6 => "6",
        7 => "7",
        8 => "8",
        _ => "9",
    }
}

/// Appends the decimal rendering of `n` to `s`.
pub fn push_decimal_u16(s: &mut String, n: u16)
    ensures
        final(s)@ == old(s)@ + dec_digits(n as nat),
    decreases n,
{
    if n >= 10 {
        push_decimal_u16(s, n / 10);
    }
    s.append(digit_str((n % 10) as u8));
    proof {
        if n >= 10 {
            assert(dec_digits(n as nat) == dec_digits(n as nat / 10) + seq![
                digit_char(n as nat % 10),
            ]);
        }
        assert(s@ =~= old(s)@ + dec_digits(n as nat));
    }
}

/// The debug-style listing of a byte sequence: the decimal values, separated
/// by commas, between square brackets.
pub open spec fn byte_listing(bs: Seq<u8>) -> Seq<char> {
    seq!['['] + listing_inner(bs) + seq![']']
}

/// The comma-separated decimal values of `bs`.
pub open spec fn listing_inner(bs: Seq<u8>) -> Seq<char>
    decreases bs.len(),
{
    if bs.len() == 0 {
        Seq::empty()
    } else if bs.len() == 1 {
        dec_digits(bs[0] as nat)
    } else {
        listing_inner(bs.drop_last()) + seq![',', ' '] + dec_digits(bs.last() as nat)
    }
}

/// Renders `bytes` as a bracketed listing of decimal values.
pub fn render_byte_listing(bytes: &Vec<u8>) -> (r: String)
    ensures
        r@ == byte_listing(bytes@),
{
    proof {
        reveal_strlit("[");
        reveal_strlit("]");
        reveal_strlit(", ");
    }
    let mut s = "[".to_owned();
    proof {
        assert(s@ =~= seq!['['] + listing_inner(bytes@.subrange(0, 0)));
    }
    let mut i: usize = 0;
    while i < bytes.len()
        invariant
            i <= bytes.len(),
            s@ == seq!['['] + listing_inner(bytes@.subrange(0, i as int)),
        decreases bytes.len() - i,
    {
        if i > 0 {
            s.append(", ");
        }
        push_decimal_u16(&mut s, bytes[i] as u16);
        i += 1;
        proof {
            let prefix = bytes@.subrange(0, i as int);
            reveal_strlit(", ");
            assert(", "@ =~= seq![',', ' ']);
            assert(prefix.len() == i as int);
            assert(prefix.drop_last() =~= bytes@.subrange(0, i - 1));
            assert(prefix.last() == bytes@[i - 1]);
            assert(s@ =~= seq!['['] + listing_inner(prefix));
        }
    }
    s.append("]");
    proof {
        assert(bytes@.subrange(0, bytes@.len() as int) =~= bytes@);
        assert(s@ =~= byte_listing(bytes@));
    }
    s
}

} // verus!
