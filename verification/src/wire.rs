//! Byte-level primitives shared by the codecs: big-endian readings of
//! adjacent bytes, and the uppercase-hexadecimal rendering used for
//! transaction identifiers.

use vstd::prelude::*;

verus! {

/// The 16-bit big-endian value of the two bytes at `i`.
pub open spec fn be16(b: Seq<u8>, i: int) -> int {
    b[i] * 256 + b[i + 1]
}

/// The 32-bit big-endian value of the four bytes at `i`.
pub open spec fn be32(b: Seq<u8>, i: int) -> int {
    ((b[i] * 256 + b[i + 1]) * 256 + b[i + 2]) * 256 + b[i + 3]
}

/// The uppercase hexadecimal digit of a nibble value.
pub open spec fn hex_digit(n: int) -> char {
    if n == 0 {
        '0'
    } else if n == 1 {
        '1'
    } else if n == 2 {
        '2'
    } else if n == 3 {
        '3'
    } else if n == 4 {
        '4'
    } else if n == 5 {
        '5'
    } else if n == 6 {
        '6'
    } else if n == 7 {
        '7'
    } else if n == 8 {
        '8'
    } else if n == 9 {
        '9'
    } else if n == 10 {
        'A'
    } else if n == 11 {
        'B'
    } else if n == 12 {
        'C'
    } else if n == 13 {
        'D'
    } else if n == 14 {
        'E'
    } else {
        'F'
    }
}

/// Whether `c` is an uppercase hexadecimal digit.
pub open spec fn is_hex_digit(c: char) -> bool {
    ('0' <= c && c <= '9') || ('A' <= c && c <= 'F')
}

/// The nibble value of an uppercase hexadecimal digit.
pub open spec fn hex_val(c: char) -> int {
    if '0' <= c && c <= '9' {
        c as int - '0' as int
    } else {
        c as int - 'A' as int + 10
    }
}

/// The hexadecimal rendering of a byte sequence: two uppercase digits per
/// byte, high nibble first.
pub open spec fn hex_chars_of(b: Seq<u8>) -> Seq<char> {
    Seq::new(2 * b.len(), |i: int| if i % 2 == 0 {
        hex_digit(b[i / 2] as int / 16)
    } else {
        hex_digit(b[i / 2] as int % 16)
    })
}

/// The bytes an even-length hexadecimal rendering denotes.
pub open spec fn bytes_of_hex(s: Seq<char>) -> Seq<u8> {
    Seq::new(s.len() / 2, |i: int| (hex_val(s[2 * i]) * 16 + hex_val(s[2 * i + 1])) as u8)
}

/// Whether every character of `s` is an uppercase hexadecimal digit.
pub open spec fn is_hex_seq(s: Seq<char>) -> bool {
    forall|i: int| 0 <= i < s.len() ==> is_hex_digit(#[trigger] s[i])
}

proof fn lemma_hex_val_of_digit(n: int)
    requires
        0 <= n < 16,
    ensures
        is_hex_digit(hex_digit(n)),
        hex_val(hex_digit(n)) == n,
{
}

proof fn lemma_hex_digit_of_val(c: char)
    requires
        is_hex_digit(c),
    ensures
        0 <= hex_val(c) < 16,
        hex_digit(hex_val(c)) == c,
{
}

/// Rendering a byte sequence in hexadecimal is reversible: the rendering
/// is made of hexadecimal digits, has twice the bytes' length, and reading
/// it back yields the bytes.
pub proof fn lemma_hex_chars_of_bytes_of(b: Seq<u8>)
    ensures
        hex_chars_of(b).len() == 2 * b.len(),
        is_hex_seq(hex_chars_of(b)),
        bytes_of_hex(hex_chars_of(b)) =~= b,
{
    let s = hex_chars_of(b);
    assert forall|i: int| 0 <= i < s.len() implies is_hex_digit(#[trigger] s[i]) by {
        if i % 2 == 0 {
            lemma_hex_val_of_digit(b[i / 2] as int / 16);
        } else {
            lemma_hex_val_of_digit(b[i / 2] as int % 16);
        }
    }
    assert forall|i: int| 0 <= i < b.len() implies bytes_of_hex(s)[i] == b[i] by {
        lemma_hex_val_of_digit(b[i] as int / 16);
        lemma_hex_val_of_digit(b[i] as int % 16);
        assert((2 * i) % 2 == 0);
        assert((2 * i + 1) % 2 == 1);
        assert((2 * i) / 2 == i);
        assert((2 * i + 1) / 2 == i);
        assert(bytes_of_hex(s)[i] == (hex_val(s[2 * i]) * 16 + hex_val(s[2 * i + 1])) as u8);
        assert(hex_val(s[2 * i]) == b[i] as int / 16);
        assert(hex_val(s[2 * i + 1]) == b[i] as int % 16);
    }
}

/// Reading an even-length hexadecimal sequence back to bytes and rendering
/// again reproduces the sequence.
#[verifier::rlimit(50)]
pub proof fn lemma_bytes_of_hex_chars_of(s: Seq<char>)
    requires
        is_hex_seq(s),
        s.len() % 2 == 0,
    ensures
        bytes_of_hex(s).len() == s.len() / 2,
        hex_chars_of(bytes_of_hex(s)) =~= s,
{
    let b = bytes_of_hex(s);
    assert forall|i: int| 0 <= i < s.len() implies hex_chars_of(b)[i] == s[i] by {
        let j = i / 2;
        lemma_hex_digit_of_val(s[2 * j]);
        lemma_hex_digit_of_val(s[2 * j + 1]);
        let hi = hex_val(s[2 * j]);
        let lo = hex_val(s[2 * j + 1]);
        let v = hi * 16 + lo;
        assert(0 <= v < 256);
        assert(b[j] == v as u8);
        vstd::arithmetic::div_mod::lemma_fundamental_div_mod_converse(v, 16, hi, lo);
        assert(v / 16 == hi);
        assert(v % 16 == lo);
        if i % 2 == 0 {
            assert(2 * j == i);
            assert(hex_chars_of(b)[i] == hex_digit(b[j] as int / 16));
            assert(hex_digit(hi) == s[2 * j]);
        } else {
            assert(2 * j + 1 == i);
            assert(hex_chars_of(b)[i] == hex_digit(b[j] as int % 16));
            assert(hex_digit(lo) == s[2 * j + 1]);
        }
    }
}

/// The uppercase hexadecimal digit of a nibble, as a one-character string.
fn hex_digit_str(n: u8) -> (r: &'static str)
    requires
        n < 16,
    ensures
        r@.len() == 1,
        r@[0] == hex_digit(n as int),
{
    proof {
        reveal_strlit("0");
        reveal_strlit("1");
        reveal_strlit("2");
        reveal_strlit("3");
        reveal_strlit("4");
        reveal_strlit("5");
        reveal_strlit("6");
        reveal_strlit("7");
        reveal_strlit("8");
        reveal_strlit("9");
        reveal_strlit("A");
        reveal_strlit("B");
        reveal_strlit("C");
        reveal_strlit("D");
        reveal_strlit("E");
        reveal_strlit("F");
    }
    match n {
        0 => "0",
        1 => "1",
        2 => "2",
        3 => "3",
        4 => "4",
        5 => "5",
        6 => "6",
        7 => "7",
        8 => "8",
        9 => "9",
        10 => "A",
        11 => "B",
        12 => "C",
        13 => "D",
        14 => "E",
        _ => "F",
    }
}

/// The nibble value of an uppercase hexadecimal digit character.
pub(crate) fn hex_val_of(c: char) -> (r: u8)
    requires
        is_hex_digit(c),
    ensures
        r < 16,
        r as int == hex_val(c),
{
    match c {
        '0' => 0,
        '1' => 1,
        '2' => 2,
        '3' => 3,
        '4' => 4,
        '5' => 5,
        '6' => 6,
        '7' => 7,
        '8' => 8,
        '9' => 9,
        'A' => 10,
        'B' => 11,
        'C' => 12,
        'D' => 13,
        'E' => 14,
        _ => 15,
    }
}

/// The uppercase hexadecimal rendering of a byte slice.
pub(crate) fn hex_string(bytes: &[u8]) -> (s: String)
    ensures
        s@ == hex_chars_of(bytes@),
{
    let mut s = String::new();
    let mut i: usize = 0;
    while i < bytes.len()
        invariant
            i <= bytes@.len(),
            s@ =~= hex_chars_of(bytes@.subrange(0, i as int)),
        decreases bytes@.len() - i,
    {
        let b = bytes[i];
        s.append(hex_digit_str(b / 16));
        s.append(hex_digit_str(b % 16));
        i = i + 1;
        proof {
            let pre = bytes@.subrange(0, i - 1);
            let cur = bytes@.subrange(0, i as int);
            assert forall|j: int| 0 <= j < cur.len() implies #[trigger] cur[j] == if j < pre.len() {
                pre[j]
            } else {
                bytes@[i - 1]
            } by {}
            assert(s@ =~= hex_chars_of(cur));
        }
    }
    proof {
        assert(bytes@.subrange(0, bytes@.len() as int) =~= bytes@);
    }
    s
}

} // verus!
