//! Hardware addresses: six octets, written as six pairs of lowercase
//! hexadecimal digits joined by colons.

use vstd::prelude::*;
use vstd::string::*;

verus! {

/// Number of octets in a hardware address.
pub const OCTETS: usize = 6;

/// Number of characters in the text form of a hardware address.
pub const TEXT_LEN: usize = 17;

/// The lowercase hexadecimal digit for a value below sixteen.
pub open spec fn hex_digit(value: int) -> char {
    if value == 0 {
        '0'
    } else if value == 1 {
        '1'
    } else if value == 2 {
        '2'
    } else if value == 3 {
        '3'
    } else if value == 4 {
        '4'
    } else if value == 5 {
        '5'
    } else if value == 6 {
        '6'
    } else if value == 7 {
        '7'
    } else if value == 8 {
        '8'
    } else if value == 9 {
        '9'
    } else if value == 10 {
        'a'
    } else if value == 11 {
        'b'
    } else if value == 12 {
        'c'
    } else if value == 13 {
        'd'
    } else if value == 14 {
        'e'
    } else {
        'f'
    }
}

/// The value of a lowercase hexadecimal digit, and -1 for any other character.
pub open spec fn hex_value(digit: char) -> int {
    if digit == '0' {
        0
    } else if digit == '1' {
        1
    } else if digit == '2' {
        2
    } else if digit == '3' {
        3
    } else if digit == '4' {
        4
    } else if digit == '5' {
        5
    } else if digit == '6' {
        6
    } else if digit == '7' {
        7
    } else if digit == '8' {
        8
    } else if digit == '9' {
        9
    } else if digit == 'a' {
        10
    } else if digit == 'b' {
        11
    } else if digit == 'c' {
        12
    } else if digit == 'd' {
        13
    } else if digit == 'e' {
        14
    } else if digit == 'f' {
        15
    } else {
        -1
    }
}

/// The character at position `i` of the text form of `octets`: every third
/// character is a colon, the two before it are the high and the low digit of
/// one octet.
pub open spec fn mac_char(octets: Seq<u8>, i: int) -> char {
    if i % 3 == 2 {
        ':'
    } else if i % 3 == 0 {
        hex_digit(octets[i / 3] as int / 16)
    } else {
        hex_digit(octets[i / 3] as int % 16)
    }
}

/// The text form of six octets.
pub open spec fn mac_text(octets: Seq<u8>) -> Seq<char>
    recommends
        octets.len() == OCTETS,
{
    Seq::new(TEXT_LEN as nat, |i: int| mac_char(octets, i))
}

/// Whether `text` has the canonical shape: seventeen characters, a colon at
/// every third place and a lowercase hexadecimal digit everywhere else.
pub open spec fn is_canonical_mac(text: Seq<char>) -> bool {
    &&& text.len() == TEXT_LEN
    &&& forall|i: int|
        0 <= i < TEXT_LEN ==> if i % 3 == 2 {
            #[trigger] text[i] == ':'
        } else {
            0 <= hex_value(text[i])
        }
}

/// The value of the octet number `k` that a canonical text spells.
pub open spec fn octet_at(text: Seq<char>, k: int) -> int
    recommends
        is_canonical_mac(text),
        0 <= k < OCTETS,
{
    hex_value(text[3 * k]) * 16 + hex_value(text[3 * k + 1])
}

/// Whether a first octet marks an address as locally administered and
/// unicast: of its low four bits only the second-lowest is set.
pub open spec fn is_local_unicast(first: u8) -> bool {
    first & 0x0f == 0x02
}

/// Whether `text` is a canonical address that is locally administered and
/// unicast.
pub open spec fn is_local_unicast_mac(text: Seq<char>) -> bool {
    &&& is_canonical_mac(text)
    &&& 0 <= octet_at(text, 0) < 256
    &&& is_local_unicast(octet_at(text, 0) as u8)
}

/// Reading back a hexadecimal digit gives the value it was written for.
pub proof fn lemma_hex_digit_value(value: int)
    requires
        0 <= value < 16,
    ensures
        hex_value(hex_digit(value)) == value,
{
}

/// The text form of any six octets is canonical, and spells those octets.
pub proof fn lemma_mac_text_canonical(octets: Seq<u8>)
    requires
        octets.len() == OCTETS,
    ensures
        is_canonical_mac(mac_text(octets)),
        forall|k: int| 0 <= k < OCTETS ==> #[trigger] octet_at(mac_text(octets), k) == octets[k],
{
    let text = mac_text(octets);
    assert forall|i: int| 0 <= i < TEXT_LEN implies if i % 3 == 2 {
        #[trigger] text[i] == ':'
    } else {
        0 <= hex_value(text[i])
    } by {
        if i % 3 != 2 {
            lemma_hex_digit_value(octets[i / 3] as int / 16);
            lemma_hex_digit_value(octets[i / 3] as int % 16);
        }
    }
    assert forall|k: int| 0 <= k < OCTETS implies #[trigger] octet_at(text, k) == octets[k] by {
        lemma_hex_digit_value(octets[k] as int / 16);
        lemma_hex_digit_value(octets[k] as int % 16);
        assert(text[3 * k] == hex_digit(octets[k] as int / 16));
        assert(text[3 * k + 1] == hex_digit(octets[k] as int % 16));
    }
}

/// The one-character string for a hexadecimal digit.
fn hex_digit_text(value: u8) -> (digit: &'static str)
    requires
        value < 16,
    ensures
        digit@ == seq![hex_digit(value as int)],
{
    proof {
        reveal_strlit("0");
        reveal_strlit("1");
        reveal_strlit("2");
        reveal_strlit("3");
        reveal_strlit("4");
        reveal_strlit("5");
        reveal_strlit("6");
        reveal_strlit("7");
        reveal_strlit("8");
        reveal_strlit("9");
        reveal_strlit("a");
        reveal_strlit("b");
        reveal_strlit("c");
        reveal_strlit("d");
        reveal_strlit("e");
        reveal_strlit("f");
    }
    let digit: &'static str = if value == 0 {
        "0"
    } else if value == 1 {
        "1"
    } else if value == 2 {
        "2"
    } else if value == 3 {
        "3"
    } else if value == 4 {
        "4"
    } else if value == 5 {
        "5"
    } else if value == 6 {
        "6"
    } else if value == 7 {
        "7"
    } else if value == 8 {
        "8"
    } else if value == 9 {
        "9"
    } else if value == 10 {
        "a"
    } else if value == 11 {
        "b"
    } else if value == 12 {
        "c"
    } else if value == 13 {
        "d"
    } else if value == 14 {
        "e"
    } else {
        "f"
    };
    assert(digit@ =~= seq![hex_digit(value as int)]);
    digit
}

/// Writes six octets in the canonical text form.
pub fn format_mac(octets: &[u8; 6]) -> (text: String)
    ensures
        text@ == mac_text(octets@),
        is_canonical_mac(text@),
{
    let mut text = String::new();
    let mut k: usize = 0;
    while k < 6
        invariant
            k <= 6,
            octets@.len() == 6,
            text@.len() == (if k == 0 {
                0
            } else {
                3 * k - 1
            }),
            forall|i: int| 0 <= i < text@.len() ==> text@[i] == mac_char(octets@, i),
        decreases 6 - k,
    {
        let ghost before = text@;
        if k > 0 {
            proof {
                reveal_strlit(":");
            }
            text.append(":");
        }
        let octet: u8 = octets[k];
        text.append(hex_digit_text(octet / 16));
        text.append(hex_digit_text(octet % 16));
        proof {
            assert(text@.len() == 3 * k + 2);
            assert forall|i: int| 0 <= i < text@.len() implies text@[i] == mac_char(
                octets@,
                i,
            ) by {
                if i < before.len() {
                    assert(text@[i] == before[i]);
                } else if i == 3 * k - 1 {
                    assert(text@[i] == ':');
                } else if i == 3 * k {
                    assert(text@[i] == hex_digit(octet as int / 16));
                } else {
                    assert(i == 3 * k + 1);
                    assert(text@[i] == hex_digit(octet as int % 16));
                }
            }
        }
        k += 1;
    }
    proof {
        assert(text@ =~= mac_text(octets@));
        lemma_mac_text_canonical(octets@);
    }
    text
}

} // verus!
