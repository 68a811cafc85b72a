//! Rendering of numbers as decimal or hexadecimal text, plus the fixed-width
//! mnemonic padding used by every formatter.
use vstd::prelude::*;

verus! {

/// The value of `x` read as a two's-complement 32-bit signed integer.
pub open spec fn to_signed32(x: u32) -> int {
    if x < 0x8000_0000 {
        x as int
    } else {
        x as int - 0x1_0000_0000
    }
}

proof fn lemma_complement_u32(x: u32)
    ensures
        (!x) as int + x as int == 0xffff_ffff,
{
    assert(((!x) as u64) + (x as u64) == 0xffff_ffffu64) by (bit_vector);
}

/// Reinterprets a 32-bit word as the signed value it encodes.
pub fn reinterpret_signed(x: u32) -> (r: i32)
    ensures
        r as int == to_signed32(x),
{
    if x < 0x8000_0000 {
        x as i32
    } else {
        proof {
            lemma_complement_u32(x);
        }
        let p = (!x) as i32;
        -p - 1
    }
}

/// The magnitude of `v` as an unsigned 32-bit value.
pub fn magnitude(v: i32) -> (r: u32)
    ensures
        v >= 0 ==> r as int == v as int,
        v < 0 ==> r as int == -(v as int),
{
    if v >= 0 {
        v as u32
    } else {
        let p = -(v + 1);
        (p as u32) + 1
    }
}

/// The decimal digit for a value below ten.
pub open spec fn spec_digit(d: nat) -> char
    recommends
        d < 10,
{
    if d == 0 {
        '0'
    } else if d == 1 {
        '1'
    } else if d == 2 {
        '2'
    } else if d == 3 {
        '3'
    } else if d == 4 {
        '4'
    } else if d == 5 {
        '5'
    } else if d == 6 {
        '6'
    } else if d == 7 {
        '7'
    } else if d == 8 {
        '8'
    } else {
        '9'
    }
}

/// The decimal digits of `n`, most significant first, with no sign and no
/// leading zero (a single `'0'` for zero itself).
pub open spec fn spec_dec_nat(n: nat) -> Seq<char>
    decreases n,
{
    if n < 10 {
        seq![spec_digit(n)]
    } else {
        spec_dec_nat(n / 10) + seq![spec_digit(n % 10)]
    }
}

/// The decimal rendering of `v`: a leading `'-'` for negative values,
/// followed by the digits of the magnitude.
pub open spec fn spec_dec_int(v: int) -> Seq<char> {
    if v < 0 {
        seq!['-'] + spec_dec_nat((-v) as nat)
    } else {
        spec_dec_nat(v as nat)
    }
}

fn digit_str(d: u32) -> (r: &'static str)
    requires
        d < 10,
    ensures
        r@ == seq![spec_digit(d as nat)],
{
    proof {
        reveal_strlit("0");
        reveal_strlit("1");
        reveal_strlit("2");
        reveal_strlit("3");
        reveal_strlit("4");
        reveal_strlit("5");
        reveal_strlit("6");
        reveal_strlit("7");
        reveal_strlit("8");
        reveal_strlit("9");
    }
    let s = match d {
        0 => "0",
        1 => "1",
        2 => "2",
        3 => "3",
        4 => "4",
        5 => "5",
        6 => "6",
        7 => "7",
        8 => "8",
        _ => "9",
    };
    proof {
        assert(s@ =~= seq![spec_digit(d as nat)]);
    }
    s
}

/// Renders `x` in decimal.
pub fn dec_u32(x: u32) -> (r: String)
    ensures
        r@ == spec_dec_nat(x as nat),
    decreases x,
{
    if x < 10 {
        String::from_str(digit_str(x))
    } else {
        let hi = dec_u32(x / 10);
        hi.concat(digit_str(x % 10))
    }
}

/// Renders `v` in signed decimal.
pub fn dec_i32(v: i32) -> (r: String)
    ensures
        r@ == spec_dec_int(v as int),
{
    if v >= 0 {
        let r = dec_u32(v as u32);
        r
    } else {
        let mut s = String::from_str("-");
        let m = magnitude(v);
        let digits = dec_u32(m);
        s.append(digits.as_str());
        proof {
            reveal_strlit("-");
            assert("-"@ =~= seq!['-']);
        }
        s
    }
}

/// The hexadecimal digit for a value below sixteen, in lower case.
pub open spec fn spec_hex_digit(d: nat) -> char
    recommends
        d < 16,
{
    if d < 10 {
        spec_digit(d)
    } else if d == 10 {
        'a'
    } else if d == 11 {
        'b'
    } else if d == 12 {
        'c'
    } else if d == 13 {
        'd'
    } else if d == 14 {
        'e'
    } else {
        'f'
    }
}

/// The hexadecimal digits of `n`, most significant first, lower case, with
/// no prefix and no leading zero (a single `'0'` for zero itself).
pub open spec fn spec_hex_nat(n: nat) -> Seq<char>
    decreases n,
{
    if n < 16 {
        seq![spec_hex_digit(n)]
    } else {
        spec_hex_nat(n / 16) + seq![spec_hex_digit(n % 16)]
    }
}

fn hex_digit_str(d: u32) -> (r: &'static str)
    requires
        d < 16,
    ensures
        r@ == seq![spec_hex_digit(d as nat)],
{
    proof {
        reveal_strlit("a");
        reveal_strlit("b");
        reveal_strlit("c");
        reveal_strlit("d");
        reveal_strlit("e");
        reveal_strlit("f");
    }
    let s = match d {
        10 => "a",
        11 => "b",
        12 => "c",
        13 => "d",
        14 => "e",
        15 => "f",
        _ => {
            return digit_str(d);
        },
    };
    proof {
        assert(s@ =~= seq![spec_hex_digit(d as nat)]);
    }
    s
}

/// Renders `x` in bare lower-case hexadecimal.
pub fn hex_u32(x: u32) -> (r: String)
    ensures
        r@ == spec_hex_nat(x as nat),
    decreases x,
{
    if x < 16 {
        String::from_str(hex_digit_str(x))
    } else {
        let hi = hex_u32(x / 16);
        hi.concat(hex_digit_str(x % 16))
    }
}

/// The rendering of `n` in hexadecimal with a `0x` prefix.
pub open spec fn spec_hex_0x(n: nat) -> Seq<char> {
    seq!['0', 'x'] + spec_hex_nat(n)
}

/// Renders `x` in hexadecimal with a `0x` prefix.
pub fn hex_u32_0x(x: u32) -> (r: String)
    ensures
        r@ == spec_hex_0x(x as nat),
{
    let mut s = String::from_str("0x");
    let digits = hex_u32(x);
    s.append(digits.as_str());
    proof {
        reveal_strlit("0x");
        assert("0x"@ =~= seq!['0', 'x']);
    }
    s
}

/// `n` spaces.
pub open spec fn spec_spaces(n: nat) -> Seq<char>
    decreases n,
{
    if n == 0 {
        Seq::empty()
    } else {
        spec_spaces((n - 1) as nat) + seq![' ']
    }
}

/// A mnemonic left-justified to a field of at least seven characters, so
/// that operand columns line up.
pub open spec fn spec_pad7(name: Seq<char>) -> Seq<char> {
    if name.len() >= 7 {
        name
    } else {
        name + spec_spaces((7 - name.len()) as nat)
    }
}

/// Pads a mnemonic with trailing spaces to a field of at least seven
/// characters.
pub fn pad_name(name: &str) -> (r: String)
    ensures
        r@ == spec_pad7(name@),
{
    let mut s = String::from_str(name);
    let n = name.unicode_len();
    let mut i: usize = n;
    while i < 7
        invariant
            s@ == name@ + spec_spaces((i - n) as nat),
            i >= n,
            i <= 7 || i == n,
            n == name@.len(),
        decreases 7 - i,
    {
        s.append(" ");
        proof {
            reveal_strlit(" ");
            assert(" "@ =~= seq![' ']);
            assert(name@ + spec_spaces((i + 1 - n) as nat) =~= (name@ + spec_spaces(
                (i - n) as nat,
            )) + " "@);
        }
        i = i + 1;
    }
    proof {
        assert(name@ + spec_spaces(0) =~= name@);
        assert(s@ =~= spec_pad7(name@));
    }
    s
}

} // verus!
