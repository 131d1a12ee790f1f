//! Lowercase hexadecimal text for key bytes.

use vstd::prelude::*;
use vstd::string::*;

verus! {

/// The lowercase hexadecimal digit for a value from 0 to 15.
pub open spec fn hex_digit_spec(nibble: int) -> char {
    if nibble == 0 {
        '0'
    } else if nibble == 1 {
        '1'
    } else if nibble == 2 {
        '2'
    } else if nibble == 3 {
        '3'
    } else if nibble == 4 {
        '4'
    } else if nibble == 5 {
        '5'
    } else if nibble == 6 {
        '6'
    } else if nibble == 7 {
        '7'
    } else if nibble == 8 {
        '8'
    } else if nibble == 9 {
        '9'
    } else if nibble == 10 {
        'a'
    } else if nibble == 11 {
        'b'
    } else if nibble == 12 {
        'c'
    } else if nibble == 13 {
        'd'
    } else if nibble == 14 {
        'e'
    } else {
        'f'
    }
}

/// The two digits of one byte, high half first.
pub open spec fn hex_byte_spec(byte: u8) -> Seq<char> {
    seq![hex_digit_spec(byte as int / 16), hex_digit_spec(byte as int % 16)]
}

/// The hexadecimal text of a byte string: two lowercase digits per byte, in
/// the order of the bytes.
pub open spec fn hex_encode_spec(bytes: Seq<u8>) -> Seq<char>
    decreases bytes.len(),
{
    if bytes.len() == 0 {
        Seq::empty()
    } else {
        hex_encode_spec(bytes.drop_last()) + hex_byte_spec(bytes.last())
    }
}

/// Whether a character is one of `0` to `9` or `a` to `f`.
pub open spec fn is_lower_hex_char(c: char) -> bool {
    ('0' <= c && c <= '9') || ('a' <= c && c <= 'f')
}

/// The text of `n` bytes has `2 * n` characters; the digit at an even place
/// stands for the high half of its byte, the one after it for the low half.
pub proof fn lemma_hex_encode_shape(bytes: Seq<u8>)
    ensures
        hex_encode_spec(bytes).len() == 2 * bytes.len(),
        forall|i: int|
            0 <= i < bytes.len() ==> hex_encode_spec(bytes)[2 * i] == hex_digit_spec(
                #[trigger] bytes[i] as int / 16,
            ) && hex_encode_spec(bytes)[2 * i + 1] == hex_digit_spec(bytes[i] as int % 16),
        forall|j: int|
            0 <= j < 2 * bytes.len() ==> is_lower_hex_char(#[trigger] hex_encode_spec(bytes)[j]),
    decreases bytes.len(),
{
    if bytes.len() > 0 {
        let front = bytes.drop_last();
        lemma_hex_encode_shape(front);
        let text = hex_encode_spec(bytes);
        assert(text == hex_encode_spec(front) + hex_byte_spec(bytes.last()));
        assert forall|i: int| 0 <= i < bytes.len() implies text[2 * i] == hex_digit_spec(
            #[trigger] bytes[i] as int / 16,
        ) && text[2 * i + 1] == hex_digit_spec(bytes[i] as int % 16) by {
            if i < front.len() {
                assert(front[i] == bytes[i]);
            }
        }
        assert forall|j: int| 0 <= j < 2 * bytes.len() implies is_lower_hex_char(
            #[trigger] text[j],
        ) by {
            if j < 2 * front.len() {
                assert(text[j] == hex_encode_spec(front)[j]);
            }
        }
    }
}

/// Different byte strings never share a hexadecimal text.
pub proof fn lemma_hex_encode_injective(a: Seq<u8>, b: Seq<u8>)
    requires
        hex_encode_spec(a) == hex_encode_spec(b),
    ensures
        a == b,
{
    lemma_hex_encode_shape(a);
    lemma_hex_encode_shape(b);
    assert(a.len() == b.len());
    assert forall|i: int| 0 <= i < a.len() implies a[i] == b[i] by {
        let x = a[i];
        let y = b[i];
        assert(hex_encode_spec(a)[2 * i] == hex_digit_spec(x as int / 16));
        assert(hex_encode_spec(b)[2 * i] == hex_digit_spec(y as int / 16));
        assert(hex_encode_spec(a)[2 * i + 1] == hex_digit_spec(x as int % 16));
        assert(hex_encode_spec(b)[2 * i + 1] == hex_digit_spec(y as int % 16));
        assert(x as int / 16 == y as int / 16);
        assert(x as int % 16 == y as int % 16);
    }
    assert(a =~= b);
}

/// The one-character text of a hexadecimal digit.
fn hex_digit(nibble: u8) -> (digit: &'static str)
    requires
        nibble < 16,
    ensures
        digit@ == seq![hex_digit_spec(nibble as int)],
{
    proof {
        reveal_strlit("0");
        reveal_strlit("1");
        reveal_strlit("2");
        reveal_strlit("3");
        reveal_strlit("4");
        reveal_strlit("5");
        reveal_strlit("6");
        reveal_strlit("7");
        reveal_strlit("8");
        reveal_strlit("9");
        reveal_strlit("a");
        reveal_strlit("b");
        reveal_strlit("c");
        reveal_strlit("d");
        reveal_strlit("e");
        reveal_strlit("f");
    }
    let digit = if nibble == 0 {
        "0"
    } else if nibble == 1 {
        "1"
    } else if nibble == 2 {
        "2"
    } else if nibble == 3 {
        "3"
    } else if nibble == 4 {
        "4"
    } else if nibble == 5 {
        "5"
    } else if nibble == 6 {
        "6"
    } else if nibble == 7 {
        "7"
    } else if nibble == 8 {
        "8"
    } else if nibble == 9 {
        "9"
    } else if nibble == 10 {
        "a"
    } else if nibble == 11 {
        "b"
    } else if nibble == 12 {
        "c"
    } else if nibble == 13 {
        "d"
    } else if nibble == 14 {
        "e"
    } else {
        "f"
    };
    assert(digit@ =~= seq![hex_digit_spec(nibble as int)]);
    digit
}

/// Writes a byte string as lowercase hexadecimal text, two digits per byte.
pub fn hex_encode(bytes: &[u8]) -> (text: String)
    ensures
        text@ == hex_encode_spec(bytes@),
        text@.len() == 2 * bytes@.len(),
        forall|j: int| 0 <= j < text@.len() ==> is_lower_hex_char(#[trigger] text@[j]),
{
    let mut text = String::new();
    let mut i: usize = 0;
    while i < bytes.len()
        invariant
            i <= bytes@.len(),
            text@ == hex_encode_spec(bytes@.take(i as int)),
        decreases bytes@.len() - i,
    {
        let byte: u8 = bytes[i];
        text.append(hex_digit(byte / 16));
        text.append(hex_digit(byte % 16));
        proof {
            let done = bytes@.take(i as int + 1);
            assert(done.drop_last() == bytes@.take(i as int));
            assert(done.last() == byte);
            assert(text@ == hex_encode_spec(bytes@.take(i as int)) + hex_byte_spec(byte));
        }
        i = i + 1;
    }
    proof {
        assert(bytes@.take(bytes@.len() as int) == bytes@);
        lemma_hex_encode_shape(bytes@);
    }
    text
}

} // verus!
