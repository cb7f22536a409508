//! Hexadecimal encoding and decoding, proved against their
//! specification-level statements.

use vstd::prelude::*;
use vstd::string::StrSliceExecFns;
use vstd::string::StringExecFns;

verus! {

/// The value of one hexadecimal digit, or -1 for any other character.
pub open spec fn hex_val(c: char) -> int {
    let u = c as u32;
    if 48 <= u <= 57 {
        u - 48
    } else if 97 <= u <= 102 {
        u - 87
    } else if 65 <= u <= 70 {
        u - 55
    } else {
        -1
    }
}

/// Whether a character sequence is well-formed hexadecimal: even length,
/// digits only.
pub open spec fn hex_ok(s: Seq<char>) -> bool {
    s.len() % 2 == 0 && forall|i: int| 0 <= i < s.len() ==> hex_val(#[trigger] s[i]) >= 0
}

/// The bytes a well-formed hexadecimal sequence denotes, two digits per
/// byte, high digit first.
pub open spec fn hex_bytes(s: Seq<char>) -> Seq<u8> {
    Seq::new((s.len() / 2) as nat, |k: int| (16 * hex_val(s[2 * k]) + hex_val(s[2 * k + 1])) as u8)
}

/// What decoding returns: the denoted bytes, or nothing when the input is
/// not well-formed hexadecimal.
pub open spec fn hex_decode_spec(s: Seq<char>) -> Option<Seq<u8>> {
    if hex_ok(s) {
        Some(hex_bytes(s))
    } else {
        None
    }
}

/// The lower-case hexadecimal digit for a value below 16.
pub open spec fn hex_char(d: u8) -> char {
    if d < 10 {
        (48 + d) as char
    } else {
        (87 + d) as char
    }
}

/// The lower-case hexadecimal rendering of a byte sequence.
pub open spec fn hex_str(b: Seq<u8>) -> Seq<char> {
    Seq::new(2 * b.len(), |i: int| if i % 2 == 0 {
        hex_char(b[i / 2] / 16)
    } else {
        hex_char(b[i / 2] % 16)
    })
}

/// The value of one hexadecimal digit character.
fn hex_digit(c: char) -> (r: Option<u8>)
    ensures
        match r {
            Some(v) => hex_val(c) == v as int,
            None => hex_val(c) < 0,
        },
{
    let u = c as u32;
    if 48 <= u && u <= 57 {
        Some((u - 48) as u8)
    } else if 97 <= u && u <= 102 {
        Some((u - 87) as u8)
    } else if 65 <= u && u <= 70 {
        Some((u - 55) as u8)
    } else {
        None
    }
}

/// Decodes a hexadecimal string into its bytes; `None` exactly when the
/// string has odd length or holds a non-digit.
pub fn hex_decode(s: &str) -> (r: Option<Vec<u8>>)
    ensures
        match r {
            Some(v) => hex_decode_spec(s@) == Some(v@),
            None => hex_decode_spec(s@) is None,
        },
{
    let n = s.unicode_len();
    if n % 2 != 0 {
        return None;
    }
    let mut out: Vec<u8> = Vec::new();
    let mut i: usize = 0;
    while i < n
        invariant
            i <= n,
            i % 2 == 0,
            n % 2 == 0,
            n == s@.len(),
            out@.len() == i / 2,
            forall|k: int| 0 <= k < i ==> hex_val(#[trigger] s@[k]) >= 0,
            forall|k: int|
                0 <= k < i / 2 ==> #[trigger] out@[k] == (16 * hex_val(s@[2 * k]) + hex_val(
                    s@[2 * k + 1],
                )) as u8,
        decreases n - i,
    {
        let c1 = s.get_char(i);
        let c2 = s.get_char(i + 1);
        match (hex_digit(c1), hex_digit(c2)) {
            (Some(h), Some(l)) => {
                out.push(16 * h + l);
            },
            _ => {
                return None;
            },
        }
        i += 2;
    }
    assert(hex_ok(s@));
    assert(out@ =~= hex_bytes(s@));
    Some(out)
}

/// The one-character string for a digit value below 16.
fn hex_digit_str(d: u8) -> (r: &'static str)
    requires
        d < 16,
    ensures
        r@ =~= seq![hex_char(d)],
{
    proof {
        reveal_strlit("0");
        reveal_strlit("1");
        reveal_strlit("2");
        reveal_strlit("3");
        reveal_strlit("4");
        reveal_strlit("5");
        reveal_strlit("6");
        reveal_strlit("7");
        reveal_strlit("8");
        reveal_strlit("9");
        reveal_strlit("a");
        reveal_strlit("b");
        reveal_strlit("c");
        reveal_strlit("d");
        reveal_strlit("e");
        reveal_strlit("f");
    }
    match d {
        0 => "0",
        1 => "1",
        2 => "2",
        3 => "3",
        4 => "4",
        5 => "5",
        6 => "6",
        7 => "7",
        8 => "8",
        9 => "9",
        10 => "a",
        11 => "b",
        12 => "c",
        13 => "d",
        14 => "e",
        _ => "f",
    }
}

/// The sequence with every leading "0x" pair removed.
pub open spec fn strip_hex_prefixes(s: Seq<char>) -> Seq<char>
    decreases s.len(),
{
    if s.len() >= 2 && s[0] == '0' && s[1] == 'x' {
        strip_hex_prefixes(s.skip(2))
    } else {
        s
    }
}

/// Removes every leading "0x" pair from a string.
pub fn strip_hex_prefix(s: &str) -> (r: String)
    ensures
        r@ == strip_hex_prefixes(s@),
{
    let n = s.unicode_len();
    let mut i: usize = 0;
    assert(s@.subrange(0, n as int) =~= s@);
    while n - i >= 2 && s.get_char(i) == '0' && s.get_char(i + 1) == 'x'
        invariant
            i <= n,
            n == s@.len(),
            strip_hex_prefixes(s@) == strip_hex_prefixes(s@.subrange(i as int, n as int)),
        decreases n - i,
    {
        proof {
            assert(s@.subrange(i as int, n as int).skip(2) =~= s@.subrange(i as int + 2, n as int));
        }
        i += 2;
    }
    proof {
        assert(strip_hex_prefixes(s@.subrange(i as int, n as int)) == s@.subrange(
            i as int,
            n as int,
        ));
    }
    s.substring_char(i, n).to_owned()
}

/// The sequence left-padded with '0' to at least `w` characters.
pub open spec fn zero_padded(s: Seq<char>, w: int) -> Seq<char> {
    if s.len() >= w {
        s
    } else {
        Seq::new((w - s.len()) as nat, |i: int| '0') + s
    }
}

/// Left-pads a string with '0' to at least `width` characters.
pub fn pad_left_zeros(s: &str, width: usize) -> (r: String)
    ensures
        r@ == zero_padded(s@, width as int),
{
    let n = s.unicode_len();
    let mut r = String::new();
    if n < width {
        let mut k: usize = n;
        while k < width
            invariant
                n <= k <= width,
                n == s@.len(),
                r@ =~= Seq::new((k - n) as nat, |i: int| '0'),
            decreases width - k,
        {
            proof {
                reveal_strlit("0");
            }
            r.append("0");
            k += 1;
            assert(r@ =~= Seq::new((k - n) as nat, |i: int| '0'));
        }
    }
    r.append(s);
    assert(r@ =~= zero_padded(s@, width as int));
    r
}

/// Encodes bytes as lower-case hexadecimal, two digits per byte.
pub fn hex_encode(b: &Vec<u8>) -> (r: String)
    ensures
        r@ == hex_str(b@),
{
    let mut s = String::new();
    let n = b.len();
    let mut i: usize = 0;
    while i < n
        invariant
            i <= n,
            n == b@.len(),
            s@ =~= hex_str(b@.subrange(0, i as int)),
        decreases n - i,
    {
        let byte = b[i];
        s.append(hex_digit_str(byte / 16));
        s.append(hex_digit_str(byte % 16));
        assert(s@ =~= hex_str(b@.subrange(0, i as int + 1)));
        i += 1;
    }
    assert(b@.subrange(0, n as int) =~= b@);
    s
}

} // verus!
