use vstd::prelude::*;
use vstd::string::*;

verus! {

/// The hexadecimal digit for `d < 16`, upper or lower case.
pub open spec fn hex_digit(d: nat, upper: bool) -> char {
    if upper {
        seq!['0', '1', '2', '3', '4', '5', '6', '7', '8', '9', 'A', 'B', 'C', 'D', 'E', 'F'][d as int]
    } else {
        seq!['0', '1', '2', '3', '4', '5', '6', '7', '8', '9', 'a', 'b', 'c', 'd', 'e', 'f'][d as int]
    }
}

/// Decimal digits of a natural number, most significant first, no leading zeros.
pub open spec fn decimal(n: nat) -> Seq<char>
    decreases n,
{
    if n < 10 {
        seq![hex_digit(n, false)]
    } else {
        decimal(n / 10) + seq![hex_digit(n % 10, false)]
    }
}

/// Decimal text of an integer, with a leading `-` when negative.
pub open spec fn signed_decimal(n: int) -> Seq<char> {
    if n < 0 {
        seq!['-'] + decimal((-n) as nat)
    } else {
        decimal(n as nat)
    }
}

/// A byte as exactly two lower-case hexadecimal digits.
pub open spec fn padded_lower_hex(b: u8) -> Seq<char> {
    seq![hex_digit((b / 16) as nat, false), hex_digit((b % 16) as nat, false)]
}

/// A byte as upper-case hexadecimal digits without a leading zero.
pub open spec fn unpadded_upper_hex(b: u8) -> Seq<char> {
    if b < 16 {
        seq![hex_digit(b as nat, true)]
    } else {
        seq![hex_digit((b / 16) as nat, true), hex_digit((b % 16) as nat, true)]
    }
}

/// Bytes as the concatenation of their unpadded upper-case hexadecimal digits.
pub open spec fn binary_upper_hex(b: Seq<u8>) -> Seq<char>
    decreases b.len(),
{
    if b.len() == 0 {
        Seq::empty()
    } else {
        binary_upper_hex(b.drop_last()) + unpadded_upper_hex(b.last())
    }
}

/// The first `i` bytes of a UUID in its hyphenated lower-case form: a hyphen
/// precedes bytes 4, 6, 8 and 10.
pub open spec fn uuid_prefix(b: Seq<u8>, i: nat) -> Seq<char>
    decreases i,
{
    if i == 0 {
        Seq::empty()
    } else {
        let k = (i - 1) as nat;
        uuid_prefix(b, k) + (if k == 4 || k == 6 || k == 8 || k == 10 {
            seq!['-']
        } else {
            Seq::empty()
        }) + padded_lower_hex(b[k as int])
    }
}

/// A UUID in its hyphenated lower-case form (`8-4-4-4-12` digits).
pub open spec fn uuid_text(b: Seq<u8>) -> Seq<char> {
    uuid_prefix(b, 16)
}

/// The digit `d < 16` as a one-character string.
fn digit_str(d: u8, upper: bool) -> (r: &'static str)
    requires
        d < 16,
    ensures
        r@ == seq![hex_digit(d as nat, upper)],
{
    proof {
        reveal_strlit("0123456789ABCDEF");
        reveal_strlit("0123456789abcdef");
    }
    let r = if upper {
        "0123456789ABCDEF".substring_char(d as usize, d as usize + 1)
    } else {
        "0123456789abcdef".substring_char(d as usize, d as usize + 1)
    };
    proof {
        assert(r@ =~= seq![hex_digit(d as nat, upper)]);
    }
    r
}

/// Appends the decimal digits of `n`.
pub fn append_decimal(s: &mut String, n: u64)
    ensures
        final(s)@ == old(s)@ + decimal(n as nat),
    decreases n,
{
    if n >= 10 {
        append_decimal(s, n / 10);
        s.append(digit_str((n % 10) as u8, false));
        proof {
            assert(old(s)@ + decimal(n as nat) =~= old(s)@ + decimal((n / 10) as nat) + seq![
                hex_digit((n % 10) as nat, false),
            ]);
        }
    } else {
        s.append(digit_str(n as u8, false));
    }
}

/// Appends the decimal text of `n`, with a leading `-` when negative.
pub fn append_signed_decimal(s: &mut String, n: i64)
    ensures
        final(s)@ == old(s)@ + signed_decimal(n as int),
{
    if n < 0 {
        proof {
            reveal_strlit("-");
        }
        s.append("-");
        let magnitude: u64 = ((-(n + 1)) as u64) + 1;
        append_decimal(s, magnitude);
        proof {
            assert(old(s)@ + signed_decimal(n as int) =~= old(s)@ + seq!['-'] + decimal(
                magnitude as nat,
            ));
        }
    } else {
        append_decimal(s, n as u64);
    }
}

/// Appends a byte as two lower-case hexadecimal digits.
fn append_padded_lower_hex(s: &mut String, b: u8)
    ensures
        final(s)@ == old(s)@ + padded_lower_hex(b),
{
    s.append(digit_str(b / 16, false));
    s.append(digit_str(b % 16, false));
    proof {
        assert(final(s)@ =~= old(s)@ + padded_lower_hex(b));
    }
}

/// Appends a byte as upper-case hexadecimal digits without a leading zero.
fn append_unpadded_upper_hex(s: &mut String, b: u8)
    ensures
        final(s)@ == old(s)@ + unpadded_upper_hex(b),
{
    if b >= 16 {
        s.append(digit_str(b / 16, true));
    }
    s.append(digit_str(b % 16, true));
    proof {
        assert(final(s)@ =~= old(s)@ + unpadded_upper_hex(b));
    }
}

/// Bytes as unpadded upper-case hexadecimal digits, byte after byte.
pub fn binary_to_upper_hex(b: &Vec<u8>) -> (r: String)
    ensures
        r@ == binary_upper_hex(b@),
{
    let mut s = String::new();
    let mut i: usize = 0;
    while i < b.len()
        invariant
            i <= b@.len(),
            s@ == binary_upper_hex(b@.subrange(0, i as int)),
        decreases b@.len() - i,
    {
        append_unpadded_upper_hex(&mut s, b[i]);
        proof {
            let next = b@.subrange(0, i + 1);
            assert(next.drop_last() =~= b@.subrange(0, i as int));
        }
        i = i + 1;
    }
    proof {
        assert(b@.subrange(0, b@.len() as int) =~= b@);
    }
    s
}

/// A UUID's sixteen bytes in hyphenated lower-case form.
pub fn uuid_to_lower_hex(b: &[u8; 16]) -> (r: String)
    ensures
        r@ == uuid_text(b@),
{
    let mut s = String::new();
    let mut i: usize = 0;
    while i < 16
        invariant
            i <= 16,
            b@.len() == 16,
            s@ == uuid_prefix(b@, i as nat),
        decreases 16 - i,
    {
        if i == 4 || i == 6 || i == 8 || i == 10 {
            proof {
                reveal_strlit("-");
            }
            s.append("-");
        }
        append_padded_lower_hex(&mut s, b[i]);
        proof {
            assert(s@ =~= uuid_prefix(b@, (i + 1) as nat));
        }
        i = i + 1;
    }
    s
}

} // verus!
