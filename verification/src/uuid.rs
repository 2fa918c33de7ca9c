//! The canonical text of a UUID: 32 lower-case hexadecimal digits in groups
//! of 8, 4, 4, 4 and 12, with a hyphen between the groups.

use vstd::prelude::*;
use vstd::string::StringExecFns;

verus! {

/// The digit for a number below 16.
pub open spec fn hex_char(n: int) -> char {
    if n == 0 {
        '0'
    } else if n == 1 {
        '1'
    } else if n == 2 {
        '2'
    } else if n == 3 {
        '3'
    } else if n == 4 {
        '4'
    } else if n == 5 {
        '5'
    } else if n == 6 {
        '6'
    } else if n == 7 {
        '7'
    } else if n == 8 {
        '8'
    } else if n == 9 {
        '9'
    } else if n == 10 {
        'a'
    } else if n == 11 {
        'b'
    } else if n == 12 {
        'c'
    } else if n == 13 {
        'd'
    } else if n == 14 {
        'e'
    } else {
        'f'
    }
}

/// The number that a lower-case hexadecimal digit stands for.
pub open spec fn hex_value(c: char) -> Option<int> {
    if c == '0' {
        Some(0)
    } else if c == '1' {
        Some(1)
    } else if c == '2' {
        Some(2)
    } else if c == '3' {
        Some(3)
    } else if c == '4' {
        Some(4)
    } else if c == '5' {
        Some(5)
    } else if c == '6' {
        Some(6)
    } else if c == '7' {
        Some(7)
    } else if c == '8' {
        Some(8)
    } else if c == '9' {
        Some(9)
    } else if c == 'a' {
        Some(10)
    } else if c == 'b' {
        Some(11)
    } else if c == 'c' {
        Some(12)
    } else if c == 'd' {
        Some(13)
    } else if c == 'e' {
        Some(14)
    } else if c == 'f' {
        Some(15)
    } else {
        None
    }
}

/// Where the hyphens stand in the text.
pub open spec fn is_hyphen_at(i: int) -> bool {
    i == 8 || i == 13 || i == 18 || i == 23
}

/// The position in the text of the digit with index `j` among the 32.
pub open spec fn digit_position(j: int) -> int {
    j + if j < 8 {
        0int
    } else if j < 12 {
        1
    } else if j < 16 {
        2
    } else if j < 20 {
        3
    } else {
        4
    }
}

/// The index among the 32 digits of the digit at position `i` of the text.
pub open spec fn digit_index(i: int) -> int {
    i - if i < 8 {
        0int
    } else if i < 13 {
        1
    } else if i < 18 {
        2
    } else if i < 23 {
        3
    } else {
        4
    }
}

/// The number that the digit with index `j` shows: the high half of its
/// byte for an even index, the low half for an odd one.
pub open spec fn nibble(bytes: Seq<u8>, j: int) -> int {
    if j % 2 == 0 {
        bytes[j / 2] as int / 16
    } else {
        bytes[j / 2] as int % 16
    }
}

/// The canonical text of the UUID with these 16 bytes.
pub open spec fn canonical(bytes: Seq<u8>) -> Seq<char> {
    Seq::new(
        36,
        |i: int|
            if is_hyphen_at(i) {
                '-'
            } else {
                hex_char(nibble(bytes, digit_index(i)))
            },
    )
}

/// The text has the canonical form: 36 characters, hyphens where they
/// belong and lower-case hexadecimal digits elsewhere.
pub open spec fn well_formed(text: Seq<char>) -> bool {
    &&& text.len() == 36
    &&& text[8] == '-' && text[13] == '-' && text[18] == '-' && text[23] == '-'
    &&& forall|j: int| 0 <= j < 32 ==> hex_value(#[trigger] text[digit_position(j)]) is Some
}

/// The byte that the digits with indices `2 * k` and `2 * k + 1` spell.
pub open spec fn byte_at(text: Seq<char>, k: int) -> u8 {
    (16 * hex_value(text[digit_position(2 * k)])->Some_0 + hex_value(
        text[digit_position(2 * k + 1)],
    )->Some_0) as u8
}

/// The bytes of the UUID that `text` is the canonical text of, if it is
/// one.
pub open spec fn uuid_of(text: Seq<char>) -> Option<Seq<u8>> {
    if well_formed(text) {
        Some(Seq::new(16, |k: int| byte_at(text, k)))
    } else {
        None
    }
}

/// A digit stands for the number that it was made from.
pub proof fn lemma_hex_round_trip(n: int)
    requires
        0 <= n < 16,
    ensures
        hex_value(hex_char(n)) == Some(n),
{
}

/// A number that a digit stands for is below 16 and gives the digit back.
pub proof fn lemma_hex_value_range(c: char)
    requires
        hex_value(c) is Some,
    ensures
        0 <= hex_value(c)->Some_0 < 16,
        hex_char(hex_value(c)->Some_0) == c,
{
}

/// Round trip: the canonical text of any 16 bytes reads back as those
/// bytes.
pub proof fn lemma_uuid_round_trip(bytes: Seq<u8>)
    requires
        bytes.len() == 16,
    ensures
        uuid_of(canonical(bytes)) == Some(bytes),
{
    let text = canonical(bytes);
    assert forall|j: int| 0 <= j < 32 implies hex_value(#[trigger] text[digit_position(j)])
        == Some(nibble(bytes, j)) by {
        lemma_hex_round_trip(nibble(bytes, j));
    }
    assert forall|k: int| 0 <= k < 16 implies byte_at(text, k) == bytes[k] by {}
}

/// A text reads as a UUID only where it is the canonical text of the bytes
/// it reads as.
pub proof fn lemma_uuid_text_is_canonical(text: Seq<char>)
    requires
        uuid_of(text) is Some,
    ensures
        uuid_of(text)->Some_0.len() == 16,
        canonical(uuid_of(text)->Some_0) == text,
{
    let bytes = uuid_of(text)->Some_0;
    assert forall|i: int| 0 <= i < 36 implies canonical(bytes)[i] == text[i] by {
        if !is_hyphen_at(i) {
            let j = digit_index(i);
            let k = j / 2;
            let hi = text[digit_position(2 * k)];
            let lo = text[digit_position(2 * k + 1)];
            lemma_hex_value_range(hi);
            lemma_hex_value_range(lo);
        }
    }
}

/// The digit for a number below 16, as a string of one character.
fn hex_str(n: u8) -> (s: &'static str)
    requires
        n < 16,
    ensures
        s@ == seq![hex_char(n as int)],
{
    proof {
        reveal_strlit("0");
        reveal_strlit("1");
        reveal_strlit("2");
        reveal_strlit("3");
        reveal_strlit("4");
        reveal_strlit("5");
        reveal_strlit("6");
        reveal_strlit("7");
        reveal_strlit("8");
        reveal_strlit("9");
        reveal_strlit("a");
        reveal_strlit("b");
        reveal_strlit("c");
        reveal_strlit("d");
        reveal_strlit("e");
        reveal_strlit("f");
    }
    let s = if n == 0 {
        "0"
    } else if n == 1 {
        "1"
    } else if n == 2 {
        "2"
    } else if n == 3 {
        "3"
    } else if n == 4 {
        "4"
    } else if n == 5 {
        "5"
    } else if n == 6 {
        "6"
    } else if n == 7 {
        "7"
    } else if n == 8 {
        "8"
    } else if n == 9 {
        "9"
    } else if n == 10 {
        "a"
    } else if n == 11 {
        "b"
    } else if n == 12 {
        "c"
    } else if n == 13 {
        "d"
    } else if n == 14 {
        "e"
    } else {
        "f"
    };
    s
}

/// Computes [`hex_value`].
fn hex_digit(c: char) -> (r: Option<u8>)
    ensures
        match hex_value(c) {
            Some(n) => r == Some(n as u8) && n < 16,
            None => r is None,
        },
{
    if c == '0' {
        Some(0)
    } else if c == '1' {
        Some(1)
    } else if c == '2' {
        Some(2)
    } else if c == '3' {
        Some(3)
    } else if c == '4' {
        Some(4)
    } else if c == '5' {
        Some(5)
    } else if c == '6' {
        Some(6)
    } else if c == '7' {
        Some(7)
    } else if c == '8' {
        Some(8)
    } else if c == '9' {
        Some(9)
    } else if c == 'a' {
        Some(10)
    } else if c == 'b' {
        Some(11)
    } else if c == 'c' {
        Some(12)
    } else if c == 'd' {
        Some(13)
    } else if c == 'e' {
        Some(14)
    } else if c == 'f' {
        Some(15)
    } else {
        None
    }
}

/// Computes [`digit_position`].
fn position_of(j: usize) -> (i: usize)
    requires
        j < 32,
    ensures
        i == digit_position(j as int),
        i < 36,
{
    if j < 8 {
        j
    } else if j < 12 {
        j + 1
    } else if j < 16 {
        j + 2
    } else if j < 20 {
        j + 3
    } else {
        j + 4
    }
}

/// Writes the canonical text of a UUID.
pub fn to_text(bytes: &[u8; 16]) -> (s: String)
    ensures
        s@ == canonical(bytes@),
{
    let mut s = String::new();
    let mut j: usize = 0;
    while j < 32
        invariant
            j <= 32,
            s@.len() == digit_position(j as int),
            forall|i: int| 0 <= i < s@.len() ==> s@[i] == canonical(bytes@)[i],
        decreases 32 - j,
    {
        let b = bytes[j / 2];
        let n = if j % 2 == 0 {
            b / 16
        } else {
            b % 16
        };
        s.append(hex_str(n));
        if j == 7 || j == 11 || j == 15 || j == 19 {
            proof {
                reveal_strlit("-");
            }
            s.append("-");
        }
        j = j + 1;
    }
    s
}

/// Reads the canonical text of a UUID: `None` exactly where the text has
/// not the canonical form.
pub fn from_text(text: &str) -> (r: Option<[u8; 16]>)
    ensures
        match uuid_of(text@) {
            Some(bytes) => r matches Some(got) && got@ == bytes,
            None => r is None,
        },
{
    if text.unicode_len() != 36 {
        return None;
    }
    if text.get_char(8) != '-' || text.get_char(13) != '-' || text.get_char(18) != '-'
        || text.get_char(23) != '-' {
        return None;
    }
    let mut bytes: [u8; 16] = [0u8; 16];
    let mut k: usize = 0;
    while k < 16
        invariant
            k <= 16,
            text@.len() == 36,
            text@[8] == '-' && text@[13] == '-' && text@[18] == '-' && text@[23] == '-',
            forall|j: int|
                0 <= j < 2 * k ==> hex_value(#[trigger] text@[digit_position(j)]) is Some,
            forall|m: int| 0 <= m < k ==> bytes@[m] == byte_at(text@, m),
        decreases 16 - k,
    {
        let hi = match hex_digit(text.get_char(position_of(2 * k))) {
            Some(n) => n,
            None => {
                return None;
            },
        };
        let lo = match hex_digit(text.get_char(position_of(2 * k + 1))) {
            Some(n) => n,
            None => {
                return None;
            },
        };
        bytes[k] = hi * 16 + lo;
        k = k + 1;
    }
    Some(bytes)
}

} // verus!
