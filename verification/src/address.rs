//! Identities of peers and of messages.

use vstd::prelude::*;
use vstd::std_specs::cmp::PartialEqSpecImpl;
use vstd::string::StringExecFns;

verus! {

/// The number of bytes in an address.
pub const ADDRESS_BYTES: usize = 20;

/// The number of characters in the text of an address.
pub const ADDRESS_TEXT_LENGTH: usize = 40;

/// The digit that stands for `value` in the text of an address: `0` to `9`,
/// then `a` to `f`.
pub open spec fn hex_digit(value: u8) -> char {
    if value < 10 {
        ((value + 48) as u8) as char
    } else {
        ((value + 87) as u8) as char
    }
}

/// What a digit in the text of an address stands for, if it is one: `0` to
/// `9`, and `a` to `f` in either case.
pub open spec fn hex_value(digit: char) -> Option<u8> {
    if '0' <= digit <= '9' {
        Some((digit as u8 - 48) as u8)
    } else if 'a' <= digit <= 'f' {
        Some((digit as u8 - 87) as u8)
    } else if 'A' <= digit <= 'F' {
        Some((digit as u8 - 55) as u8)
    } else {
        None
    }
}

/// The text of the address with the given bytes: two digits for each byte,
/// the higher half first.
pub open spec fn text_of_bytes(bytes: Seq<u8>) -> Seq<char> {
    Seq::new(
        2 * bytes.len(),
        |i: int|
            if i % 2 == 0 {
                hex_digit(bytes[i / 2] / 16)
            } else {
                hex_digit(bytes[i / 2] % 16)
            },
    )
}

/// Whether `text` is the text of an address: forty digits.
pub open spec fn is_address_text(text: Seq<char>) -> bool {
    &&& text.len() == ADDRESS_TEXT_LENGTH
    &&& forall|i: int| 0 <= i < text.len() ==> hex_value(#[trigger] text[i]) is Some
}

/// The bytes of the address that `text` is the text of.
pub open spec fn bytes_of_text(text: Seq<char>) -> Seq<u8> {
    Seq::new(
        ADDRESS_BYTES as nat,
        |i: int| (hex_value(text[2 * i])->0 * 16 + hex_value(text[2 * i + 1])->0) as u8,
    )
}

/// The identity of a peer or of a message: twenty bytes.
///
/// Two addresses are the same when they hold the same bytes.
#[derive(Clone, Copy, Debug, Eq, Hash)]
pub struct Address {
    bytes: [u8; 20],
}

impl View for Address {
    type V = Seq<u8>;

    closed spec fn view(&self) -> Seq<u8> {
        self.bytes@
    }
}

impl PartialEq for Address {
    fn eq(&self, other: &Address) -> (equal: bool) {
        let mut i: usize = 0;
        while i < ADDRESS_BYTES
            invariant
                i <= ADDRESS_BYTES,
                forall|j: int| 0 <= j < i ==> self.bytes@[j] == other.bytes@[j],
            decreases ADDRESS_BYTES - i,
        {
            if self.bytes[i] != other.bytes[i] {
                return false;
            }
            i = i + 1;
        }
        assert(self.bytes =~= other.bytes);
        true
    }
}

impl PartialEqSpecImpl for Address {
    open spec fn obeys_eq_spec() -> bool {
        true
    }

    open spec fn eq_spec(&self, other: &Address) -> bool {
        *self == *other
    }
}

impl Address {
    /// An address is known by its bytes, of which it has twenty.
    pub proof fn lemma_view(a: Address, b: Address)
        ensures
            a@.len() == ADDRESS_BYTES,
            a@ == b@ <==> a == b,
    {
        if a@ == b@ {
            assert(a.bytes =~= b.bytes);
        }
    }

    /// The address that stands for "nobody": all bytes zero.
    pub fn null() -> (address: Address)
        ensures
            address@ == Seq::new(ADDRESS_BYTES as nat, |i: int| 0u8),
    {
        Address { bytes: [0u8; 20] }
    }

    /// The address that holds the given bytes.
    pub fn from_bytes(bytes: [u8; 20]) -> (address: Address)
        ensures
            address@ == bytes@,
    {
        Address { bytes }
    }

    /// The bytes of the address.
    pub fn to_bytes(&self) -> (bytes: [u8; 20])
        ensures
            bytes@ == self@,
    {
        self.bytes
    }

    /// The address in writing: forty digits, of which the letters are small.
    pub fn to_str(&self) -> (text: String)
        ensures
            text@ == text_of_bytes(self@),
    {
        let mut text = String::new();
        let mut i: usize = 0;
        while i < ADDRESS_BYTES
            invariant
                i <= ADDRESS_BYTES,
                text@ == text_of_bytes(self@.take(i as int)),
            decreases ADDRESS_BYTES - i,
        {
            let byte = self.bytes[i];
            push_hex_digit(&mut text, byte / 16);
            push_hex_digit(&mut text, byte % 16);
            assert(text@ =~= text_of_bytes(self@.take(i + 1)));
            i = i + 1;
        }
        text
    }

    /// Reads an address from its text: forty digits, letters small or
    /// capital. Anything else is no address.
    pub fn from_str(text: &str) -> (address: Option<Address>)
        ensures
            match address {
                Some(address) => is_address_text(text@) && address@ == bytes_of_text(text@),
                None => !is_address_text(text@),
            },
    {
        if !text.is_ascii() {
            proof {
                let i = choose|i: int|
                    0 <= i < text@.len() && !('\0' <= #[trigger] text@[i] <= '\u{7f}');
                assert(hex_value(text@[i]) is None);
            }
            return None;
        }
        let digits = text.as_bytes();
        proof {
            vstd::string::is_ascii_spec_bytes(text);
            assert forall|k: int| 0 <= k < digits@.len() implies digits@[k] == text@[k] as u8 by {}
        }
        if digits.len() != ADDRESS_TEXT_LENGTH {
            return None;
        }
        let mut bytes = [0u8; 20];
        let mut i: usize = 0;
        while i < ADDRESS_BYTES
            invariant
                i <= ADDRESS_BYTES,
                digits@.len() == ADDRESS_TEXT_LENGTH,
                digits@.len() == text@.len(),
                forall|k: int| 0 <= k < digits@.len() ==> digits@[k] == text@[k] as u8,
                forall|k: int| 0 <= k < text@.len() ==> (#[trigger] text@[k]) <= '\u{7f}',
                forall|k: int| 0 <= k < 2 * i ==> hex_value(#[trigger] text@[k]) is Some,
                forall|k: int|
                    0 <= k < i ==> (#[trigger] bytes@[k]) == bytes_of_text(text@)[k],
            decreases ADDRESS_BYTES - i,
        {
            let high = digit_value(digits[2 * i]);
            let low = digit_value(digits[2 * i + 1]);
            proof {
                let first = text@[2 * i];
                let second = text@[2 * i + 1];
                lemma_ascii_code(first);
                lemma_ascii_code(second);
            }
            match (high, low) {
                (Some(high), Some(low)) => {
                    bytes[i] = high * 16 + low;
                    assert forall|k: int| 0 <= k < 2 * (i + 1) implies hex_value(
                        #[trigger] text@[k],
                    ) is Some by {}
                },
                _ => {
                    return None;
                },
            }
            i = i + 1;
        }
        Some(Address { bytes })
    }

    /// Writing an address down and reading it again gives the address back.
    pub proof fn lemma_text_round_trip(address: Address)
        ensures
            is_address_text(text_of_bytes(address@)),
            bytes_of_text(text_of_bytes(address@)) == address@,
    {
        let text = text_of_bytes(address@);
        assert forall|i: int| 0 <= i < text.len() implies hex_value(#[trigger] text[i]) is Some by {
            lemma_digit_round_trip(address@[i / 2] / 16);
            lemma_digit_round_trip(address@[i / 2] % 16);
        }
        assert forall|i: int| 0 <= i < ADDRESS_BYTES implies bytes_of_text(text)[i]
            == address@[i] by {
            lemma_digit_round_trip(address@[i] / 16);
            lemma_digit_round_trip(address@[i] % 16);
        }
    }
}

/// A character of the first 128 is known by its code.
proof fn lemma_ascii_code(c: char)
    requires
        c <= '\u{7f}',
    ensures
        (c as u8) < 128,
        (c as u8) as char == c,
{
}

/// A digit stands for the value that it was written for.
pub proof fn lemma_digit_round_trip(value: u8)
    requires
        value < 16,
    ensures
        hex_value(hex_digit(value)) == Some(value),
{
}

/// What the character with code `digit` stands for in the text of an
/// address, if it is a digit.
fn digit_value(digit: u8) -> (value: Option<u8>)
    ensures
        digit < 128 ==> value == hex_value(digit as char),
        value matches Some(value) ==> value < 16,
{
    if digit >= 48 && digit <= 57 {
        Some(digit - 48)
    } else if digit >= 97 && digit <= 102 {
        Some(digit - 87)
    } else if digit >= 65 && digit <= 70 {
        Some(digit - 55)
    } else {
        None
    }
}

/// Writes the digit for `value` at the end of `text`.
fn push_hex_digit(text: &mut String, value: u8)
    requires
        value < 16,
    ensures
        final(text)@ == old(text)@.push(hex_digit(value)),
{
    let digit = match value {
        0 => "0",
        1 => "1",
        2 => "2",
        3 => "3",
        4 => "4",
        5 => "5",
        6 => "6",
        7 => "7",
        8 => "8",
        9 => "9",
        10 => "a",
        11 => "b",
        12 => "c",
        13 => "d",
        14 => "e",
        _ => "f",
    };
    proof {
        reveal_strlit("0");
        reveal_strlit("1");
        reveal_strlit("2");
        reveal_strlit("3");
        reveal_strlit("4");
        reveal_strlit("5");
        reveal_strlit("6");
        reveal_strlit("7");
        reveal_strlit("8");
        reveal_strlit("9");
        reveal_strlit("a");
        reveal_strlit("b");
        reveal_strlit("c");
        reveal_strlit("d");
        reveal_strlit("e");
        reveal_strlit("f");
    }
    text.append(digit);
}

} // verus!
