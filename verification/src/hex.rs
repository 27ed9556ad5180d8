//! The hexadecimal dump of a byte sequence, as a report shows it: two upper
//! case digits per byte, the bytes separated by a comma and a space, the whole
//! in square brackets.

use vstd::prelude::*;
use vstd::string::StringExecFns;

verus! {

/// The upper case hexadecimal digit for a value below sixteen.
pub open spec fn hex_digit(d: int) -> char {
    if d < 10 {
        (d + 48) as char
    } else {
        (d + 55) as char
    }
}

/// The two digits of one byte, high digit first.
pub open spec fn hex_byte(b: u8) -> Seq<char> {
    seq![hex_digit(b as int / 16), hex_digit(b as int % 16)]
}

/// The bytes in hexadecimal, separated by a comma and a space.
pub open spec fn hex_items(bytes: Seq<u8>) -> Seq<char>
    decreases bytes.len(),
{
    if bytes.len() == 0 {
        Seq::empty()
    } else if bytes.len() == 1 {
        hex_byte(bytes[0])
    } else {
        hex_items(bytes.drop_last()) + seq![',', ' '] + hex_byte(bytes.last())
    }
}

/// The dump of `bytes`: their hexadecimal items in square brackets.
pub open spec fn hex_dump_of(bytes: Seq<u8>) -> Seq<char> {
    seq!['['] + hex_items(bytes) + seq![']']
}

/// The length of a dump: the two brackets alone for no bytes, else four
/// characters a byte.
pub proof fn lemma_hex_dump_len(bytes: Seq<u8>)
    ensures
        hex_dump_of(bytes).len() == if bytes.len() == 0 {
            2
        } else {
            4 * bytes.len()
        },
{
    lemma_hex_items_len(bytes);
}

/// The items take two digits a byte and two characters between neighbours.
proof fn lemma_hex_items_len(bytes: Seq<u8>)
    ensures
        hex_items(bytes).len() == if bytes.len() == 0 {
            0
        } else {
            4 * bytes.len() - 2
        },
    decreases bytes.len(),
{
    if bytes.len() > 1 {
        lemma_hex_items_len(bytes.drop_last());
    }
}

/// The text of one hexadecimal digit.
fn digit_text(d: u8) -> (text: &'static str)
    requires
        d < 16,
    ensures
        text@ == seq![hex_digit(d as int)],
{
    proof {
        reveal_strlit("0");
        reveal_strlit("1");
        reveal_strlit("2");
        reveal_strlit("3");
        reveal_strlit("4");
        reveal_strlit("5");
        reveal_strlit("6");
        reveal_strlit("7");
        reveal_strlit("8");
        reveal_strlit("9");
        reveal_strlit("A");
        reveal_strlit("B");
        reveal_strlit("C");
        reveal_strlit("D");
        reveal_strlit("E");
        reveal_strlit("F");
    }
    match d {
        0 => "0",
        1 => "1",
        2 => "2",
        3 => "3",
        4 => "4",
        5 => "5",
        6 => "6",
        7 => "7",
        8 => "8",
        9 => "9",
        10 => "A",
        11 => "B",
        12 => "C",
        13 => "D",
        14 => "E",
        _ => "F",
    }
}

/// Writes the dump of `bytes`.
pub fn hex_dump(bytes: &Vec<u8>) -> (dump: String)
    ensures
        dump@ == hex_dump_of(bytes@),
{
    let mut dump = String::from_str("[");
    proof {
        reveal_strlit("[");
        reveal_strlit("]");
        reveal_strlit(", ");
    }
    let mut i: usize = 0;
    while i < bytes.len()
        invariant
            i <= bytes.len(),
            dump@ == seq!['['] + hex_items(bytes@.subrange(0, i as int)),
            ", "@ == seq![',', ' '],
        decreases bytes.len() - i,
    {
        let b = bytes[i];
        if i > 0 {
            dump.append(", ");
        }
        dump.append(digit_text(b / 16));
        dump.append(digit_text(b % 16));
        proof {
            let done = bytes@.subrange(0, i as int);
            let next = bytes@.subrange(0, i + 1);
            assert(next.drop_last() =~= done);
        }
        i += 1;
    }
    dump.append("]");
    proof {
        assert(bytes@.subrange(0, i as int) =~= bytes@);
    }
    dump
}

} // verus!
