//! Locating the `DASM(XXXXXXXX)` marker inside a line of text and reading
//! its eight hexadecimal digits as a 32-bit value.
use vstd::prelude::*;

verus! {

/// Whether `c` is a hexadecimal digit, in either case.
pub open spec fn spec_is_hex_digit(c: char) -> bool {
    (('0' as u32) <= (c as u32) && (c as u32) <= ('9' as u32)) || (('a' as u32) <= (c as u32) && (
    c as u32) <= ('f' as u32)) || (('A' as u32) <= (c as u32) && (c as u32) <= ('F' as u32))
}

/// The value of the hexadecimal digit `c`.
pub open spec fn spec_hex_digit_value(c: char) -> nat
    recommends
        spec_is_hex_digit(c),
{
    if ('0' as u32) <= (c as u32) && (c as u32) <= ('9' as u32) {
        ((c as u32) - ('0' as u32)) as nat
    } else if ('a' as u32) <= (c as u32) && (c as u32) <= ('f' as u32) {
        ((c as u32) - ('a' as u32) + 10) as nat
    } else {
        ((c as u32) - ('A' as u32) + 10) as nat
    }
}

/// The value of a sequence of hexadecimal digits, most significant first.
pub open spec fn spec_hex_value(s: Seq<char>) -> nat
    decreases s.len(),
{
    if s.len() == 0 {
        0
    } else {
        spec_hex_value(s.drop_last()) * 16 + spec_hex_digit_value(s.last())
    }
}

/// Whether the marker `DASM(` starts at position `i` of `s`.
pub open spec fn spec_marker_at(s: Seq<char>, i: int) -> bool {
    &&& 0 <= i
    &&& i + 5 <= s.len()
    &&& s[i] == 'D'
    &&& s[i + 1] == 'A'
    &&& s[i + 2] == 'S'
    &&& s[i + 3] == 'M'
    &&& s[i + 4] == '('
}

/// The least position at or after `lo` where the marker starts, or `-1`
/// where it never does.
pub open spec fn spec_first_marker_from(s: Seq<char>, lo: int) -> int
    recommends
        0 <= lo,
    decreases s.len() - lo,
{
    if lo < 0 || lo + 5 > s.len() {
        -1
    } else if spec_marker_at(s, lo) {
        lo
    } else {
        spec_first_marker_from(s, lo + 1)
    }
}

/// Whether a well-formed payload follows the marker at `i`: eight
/// hexadecimal digits and a closing parenthesis.
pub open spec fn spec_payload_ok(s: Seq<char>, i: int) -> bool {
    &&& i + 14 <= s.len()
    &&& (forall|k: int| i + 5 <= k < i + 13 ==> spec_is_hex_digit(#[trigger] s[k]))
    &&& s[i + 13] == ')'
}

/// Where the marker is known at `i` and absent before it, the scan from
/// position zero settles on `i`.
proof fn lemma_first_marker_exact(s: Seq<char>, lo: int, i: int)
    requires
        0 <= lo <= i,
        spec_marker_at(s, i),
        forall|j: int| lo <= j < i ==> !spec_marker_at(s, j),
    ensures
        spec_first_marker_from(s, lo) == i,
    decreases i - lo,
{
    if lo < i {
        lemma_first_marker_exact(s, lo + 1, i);
    }
}

/// Where no position carries the marker, the scan reports `-1`.
proof fn lemma_no_marker(s: Seq<char>, lo: int)
    requires
        0 <= lo,
        forall|j: int| lo <= j ==> !spec_marker_at(s, j),
    ensures
        spec_first_marker_from(s, lo) == -1,
    decreases s.len() - lo,
{
    if lo + 5 <= s.len() {
        lemma_no_marker(s, lo + 1);
    }
}

/// Extending a digit sequence by one digit multiplies its value by sixteen
/// and adds the new digit.
proof fn lemma_hex_value_step(s: Seq<char>, b: int, k: int)
    requires
        0 <= b,
        0 <= k,
        b + k + 1 <= s.len(),
    ensures
        spec_hex_value(s.subrange(b, b + k + 1)) == spec_hex_value(s.subrange(b, b + k)) * 16
            + spec_hex_digit_value(s[b + k]),
{
    let p = s.subrange(b, b + k + 1);
    assert(p.drop_last() =~= s.subrange(b, b + k));
    assert(p.last() == s[b + k]);
}

/// Whether `c` is a hexadecimal digit.
fn is_hex_digit(c: char) -> (r: bool)
    ensures
        r == spec_is_hex_digit(c),
{
    let u = c as u32;
    (u >= '0' as u32 && u <= '9' as u32) || (u >= 'a' as u32 && u <= 'f' as u32) || (u >= 'A' as u32
        && u <= 'F' as u32)
}

fn hex_digit_value(c: char) -> (r: u32)
    requires
        spec_is_hex_digit(c),
    ensures
        r == spec_hex_digit_value(c),
        r < 16,
{
    let u = c as u32;
    if u >= '0' as u32 && u <= '9' as u32 {
        u - '0' as u32
    } else if u >= 'a' as u32 && u <= 'f' as u32 {
        u - 'a' as u32 + 10
    } else {
        u - 'A' as u32 + 10
    }
}

/// Reads the eight hexadecimal digits starting at position `b`, or reports
/// that some of the eight characters there is not a hexadecimal digit.
fn parse_hex8(input: &str, b: usize) -> (r: Option<u32>)
    requires
        b + 8 <= input@.len(),
        input@.len() <= usize::MAX,
    ensures
        r is Some <==> (forall|k: int| b <= k < b + 8 ==> spec_is_hex_digit(#[trigger] input@[k])),
        r matches Some(v) ==> v == spec_hex_value(input@.subrange(b as int, b + 8)),
{
    let ghost s = input@;
    let mut k: usize = 0;
    while k < 8
        invariant
            b + 8 <= s.len(),
            s.len() <= usize::MAX,
            s == input@,
            k <= 8,
            forall|j: int| b <= j < b + k ==> spec_is_hex_digit(#[trigger] s[j]),
        decreases 8 - k,
    {
        if !is_hex_digit(input.get_char(b + k)) {
            return None;
        }
        k = k + 1;
    }
    let d0 = hex_digit_value(input.get_char(b));
    let d1 = hex_digit_value(input.get_char(b + 1));
    let d2 = hex_digit_value(input.get_char(b + 2));
    let d3 = hex_digit_value(input.get_char(b + 3));
    let d4 = hex_digit_value(input.get_char(b + 4));
    let d5 = hex_digit_value(input.get_char(b + 5));
    let d6 = hex_digit_value(input.get_char(b + 6));
    let d7 = hex_digit_value(input.get_char(b + 7));
    let v1 = d0 * 16 + d1;
    let v2 = v1 * 16 + d2;
    let v3 = v2 * 16 + d3;
    let v4 = v3 * 16 + d4;
    let v5 = v4 * 16 + d5;
    let v6 = v5 * 16 + d6;
    let v7 = v6 * 16 + d7;
    proof {
        let bi = b as int;
        assert(s.subrange(bi, bi).len() == 0);
        lemma_hex_value_step(s, bi, 0);
        assert(s.subrange(bi, bi + 1).drop_last() =~= s.subrange(bi, bi));
        lemma_hex_value_step(s, bi, 1);
        lemma_hex_value_step(s, bi, 2);
        lemma_hex_value_step(s, bi, 3);
        lemma_hex_value_step(s, bi, 4);
        lemma_hex_value_step(s, bi, 5);
        lemma_hex_value_step(s, bi, 6);
        lemma_hex_value_step(s, bi, 7);
    }
    Some(v7)
}

/// Reads the first eight characters of `input` as a hexadecimal number.
/// Underscores and a leading `0x` are not accepted; mixed case is. Returns
/// the rest of the input and the value.
pub fn hex_u32<'a>(input: &'a str) -> (r: Option<(&'a str, u32)>)
    ensures
        ({
            let s = input@;
            if s.len() >= 8 && (forall|k: int| 0 <= k < 8 ==> spec_is_hex_digit(#[trigger] s[k])) {
                r matches Some(t) && t.0@ == s.subrange(8, s.len() as int) && t.1 == spec_hex_value(
                    s.subrange(0, 8),
                )
            } else {
                r is None
            }
        }),
{
    let n = input.unicode_len();
    if n < 8 {
        return None;
    }
    match parse_hex8(input, 0) {
        None => None,
        Some(v) => {
            let rest = input.substring_char(8, n);
            Some((rest, v))
        },
    }
}

/// Locates the first `DASM(` marker in `input`, reads the eight hexadecimal
/// digits after it and the closing parenthesis, and returns the text after
/// the parenthesis, the text before the marker, and the value. Returns
/// `None` where no marker occurs, or where what follows the first marker is
/// not eight hexadecimal digits and a closing parenthesis.
pub fn parse_value<'a>(input: &'a str) -> (r: Option<(&'a str, (&'a str, u32))>)
    ensures
        ({
            let s = input@;
            let m = spec_first_marker_from(s, 0);
            if m >= 0 && spec_payload_ok(s, m) {
                r matches Some(t) && t.0@ == s.subrange(m + 14, s.len() as int) && t.1.0@
                    == s.subrange(0, m) && t.1.1 == spec_hex_value(s.subrange(m + 5, m + 13))
            } else {
                r is None
            }
        }),
{
    let ghost s = input@;
    let n = input.unicode_len();
    if n < 5 {
        proof {
            lemma_no_marker(s, 0);
        }
        return None;
    }
    let mut i: usize = 0;
    while i <= n - 5
        invariant
            s == input@,
            n == s.len(),
            n >= 5,
            i <= n,
            forall|j: int| 0 <= j < i ==> !spec_marker_at(s, j),
        decreases n - i,
    {
        if input.get_char(i) == 'D' && input.get_char(i + 1) == 'A' && input.get_char(i + 2) == 'S'
            && input.get_char(i + 3) == 'M' && input.get_char(i + 4) == '(' {
            proof {
                lemma_first_marker_exact(s, 0, i as int);
            }
            if n - i < 14 {
                return None;
            }
            let c13 = input.get_char(i + 13);
            if c13 != ')' {
                return None;
            }
            match parse_hex8(input, i + 5) {
                None => {
                    return None;
                },
                Some(v) => {
                    let begin = input.substring_char(0, i);
                    let end = input.substring_char(i + 14, n);
                    return Some((end, (begin, v)));
                },
            }
        }
        i = i + 1;
    }
    proof {
        assert forall|j: int| 0 <= j implies !spec_marker_at(s, j) by {
            if j + 5 <= s.len() {
                assert(j < i);
            }
        }
        lemma_no_marker(s, 0);
    }
    None
}

} // verus!
