//! Strings: comparison, the address prefix, and hexadecimal digits.

use vstd::prelude::*;
use vstd::string::StringExecFns;
use vstd::utf8::{encode_utf8, encode_utf8_decode_utf8};

verus! {

/// Whether the address starts with the two characters `0x`.
pub open spec fn has_hex_prefix(address: Seq<char>) -> bool {
    address.len() >= 2 && address[0] == '0' && address[1] == 'x'
}

/// Tests the first two characters of `address`.
pub fn starts_with_hex_prefix(address: &str) -> (r: bool)
    ensures
        r == has_hex_prefix(address@),
{
    let mut chars = address.chars();
    let first = chars.next();
    let second = chars.next();
    match first {
        Some(a) => match second {
            Some(b) => a == '0' && b == 'x',
            None => false,
        },
        None => false,
    }
}

/// Two strings with the same UTF-8 bytes have the same characters.
pub proof fn lemma_utf8_injective(a: Seq<char>, b: Seq<char>)
    requires
        encode_utf8(a) == encode_utf8(b),
    ensures
        a == b,
{
    encode_utf8_decode_utf8(a);
    encode_utf8_decode_utf8(b);
}

/// Whether two strings hold the same characters.
pub fn str_eq(a: &str, b: &str) -> (r: bool)
    ensures
        r == (a@ == b@),
{
    let x = a.as_bytes();
    let y = b.as_bytes();
    if x.len() != y.len() {
        return false;
    }
    let mut i: usize = 0;
    while i < x.len()
        invariant
            i <= x.len(),
            x.len() == y.len(),
            x@ == encode_utf8(a@),
            y@ == encode_utf8(b@),
            forall|j: int| 0 <= j < i ==> x@[j] == y@[j],
        decreases x.len() - i,
    {
        if x[i] != y[i] {
            return false;
        }
        i = i + 1;
    }
    proof {
        assert(x@ =~= y@);
        lemma_utf8_injective(a@, b@);
    }
    true
}

/// The lower-case hexadecimal digit for `d`, where `d < 16`: `0` to `9`,
/// which start at code 48, then `a` to `f`, which start at code 97.
pub open spec fn hex_char(d: nat) -> char {
    if d < 10 {
        ((48 + d) as u8) as char
    } else {
        ((87 + d) as u8) as char
    }
}

/// Sixteen to the power `k`.
pub open spec fn pow16(k: nat) -> nat
    decreases k,
{
    if k == 0 {
        1
    } else {
        16 * pow16((k - 1) as nat)
    }
}

/// `n` in lower-case hexadecimal, most significant digit first, in exactly
/// `width` digits: padded with zeros on the left, and cut there where `n`
/// needs more.
pub open spec fn hex_fixed(n: nat, width: nat) -> Seq<char> {
    Seq::new(width, |i: int| hex_char((n / pow16((width - 1 - i) as nat)) % 16))
}

proof fn lemma_pow16_positive(k: nat)
    ensures
        pow16(k) > 0,
    decreases k,
{
    if k > 0 {
        lemma_pow16_positive((k - 1) as nat);
    }
}

fn hex_digit(d: u64) -> (r: &'static str)
    requires
        d < 16,
    ensures
        r@ == seq![hex_char(d as nat)],
{
    proof {
        reveal_strlit("0");
        reveal_strlit("1");
        reveal_strlit("2");
        reveal_strlit("3");
        reveal_strlit("4");
        reveal_strlit("5");
        reveal_strlit("6");
        reveal_strlit("7");
        reveal_strlit("8");
        reveal_strlit("9");
        reveal_strlit("a");
        reveal_strlit("b");
        reveal_strlit("c");
        reveal_strlit("d");
        reveal_strlit("e");
        reveal_strlit("f");
    }
    let r = match d {
        0 => "0",
        1 => "1",
        2 => "2",
        3 => "3",
        4 => "4",
        5 => "5",
        6 => "6",
        7 => "7",
        8 => "8",
        9 => "9",
        10 => "a",
        11 => "b",
        12 => "c",
        13 => "d",
        14 => "e",
        _ => "f",
    };
    assert(r@ =~= seq![hex_char(d as nat)]);
    r
}

/// `n` as sixteen lower-case hexadecimal digits.
pub fn hex16(n: u64) -> (r: String)
    ensures
        r@ == hex_fixed(n as nat, 16),
{
    let mut out = String::new();
    let mut divisor: u64 = 0x1000_0000_0000_0000;
    let mut i: usize = 0;
    proof {
        reveal_with_fuel(pow16, 16);
        assert(pow16(15) == 0x1000_0000_0000_0000);
    }
    while i < 16
        invariant
            i <= 16,
            i < 16 ==> divisor == pow16((15 - i) as nat),
            out@ == hex_fixed(n as nat, 16).subrange(0, i as int),
        decreases 16 - i,
    {
        proof {
            lemma_pow16_positive((15 - i) as nat);
        }
        let digit = (n / divisor) % 16;
        out.append(hex_digit(digit));
        proof {
            assert(out@ =~= hex_fixed(n as nat, 16).subrange(0, i + 1));
            if i < 15 {
                assert(pow16((15 - i) as nat) == 16 * pow16((14 - i) as nat));
            }
        }
        divisor = divisor / 16;
        i = i + 1;
    }
    assert(out@ =~= hex_fixed(n as nat, 16));
    out
}

} // verus!
