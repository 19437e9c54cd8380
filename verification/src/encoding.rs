use vstd::prelude::*;

verus! {

/// The sixteen lowercase hexadecimal digits, in order.
pub open spec fn hex_digits() -> Seq<char> {
    seq!['0', '1', '2', '3', '4', '5', '6', '7', '8', '9', 'a', 'b', 'c', 'd', 'e', 'f']
}

/// `c` is one of the lowercase hexadecimal digits.
pub open spec fn is_lower_hex_char(c: char) -> bool {
    ('0' <= c && c <= '9') || ('a' <= c && c <= 'f')
}

/// Lowercase hexadecimal text of a byte string: two digits per byte, high nibble first.
pub open spec fn hex_lower(bytes: Seq<u8>) -> Seq<char>
    decreases bytes.len(),
{
    if bytes.len() == 0 {
        Seq::empty()
    } else {
        seq![hex_digits()[(bytes[0] / 16) as int], hex_digits()[(bytes[0] % 16) as int]] + hex_lower(
            bytes.drop_first(),
        )
    }
}

/// The hexadecimal text of `n` bytes has `2 * n` characters, each a lowercase hex digit.
pub proof fn lemma_hex_lower_shape(bytes: Seq<u8>)
    ensures
        hex_lower(bytes).len() == 2 * bytes.len(),
        forall|i: int| 0 <= i < hex_lower(bytes).len() ==> is_lower_hex_char(#[trigger] hex_lower(bytes)[i]),
    decreases bytes.len(),
{
    if bytes.len() > 0 {
        lemma_hex_lower_shape(bytes.drop_first());
        assert forall|i: int| 0 <= i < hex_lower(bytes).len() implies is_lower_hex_char(#[trigger] hex_lower(bytes)[i]) by {
            if i >= 2 {
                assert(hex_lower(bytes)[i] == hex_lower(bytes.drop_first())[i - 2]);
            }
        }
    }
}

/// Lowercase hexadecimal encoding of a byte slice, by the `hex` crate.
/// Trusted: `hex::encode` writes each byte as two lowercase digits, high nibble first.
#[verifier::external_body]
pub(crate) fn hex_encode(bytes: &[u8]) -> (text: String)
    ensures
        text@ == hex_lower(bytes@),
{
    hex::encode(bytes)
}


/// The `k`-th hexadecimal digit (0 = most significant) of a 128-bit identifier.
pub open spec fn uuid_nibble(id: u128, k: int) -> int {
    ((id >> ((124 - 4 * k) as u128)) & 15u128) as int
}

/// Positions of the four hyphens in the hyphenated identifier text.
pub open spec fn is_uuid_hyphen_position(i: int) -> bool {
    i == 8 || i == 13 || i == 18 || i == 23
}

/// Index of the digit shown at text position `i` (hyphens skipped).
pub open spec fn uuid_digit_index(i: int) -> int {
    if i < 8 {
        i
    } else if i < 13 {
        i - 1
    } else if i < 18 {
        i - 2
    } else if i < 23 {
        i - 3
    } else {
        i - 4
    }
}

/// Hyphenated lowercase text of a 128-bit identifier: 32 hex digits, most significant first,
/// grouped 8-4-4-4-12.
pub open spec fn uuid_text(id: u128) -> Seq<char> {
    Seq::new(
        36,
        |i: int|
            if is_uuid_hyphen_position(i) {
                '-'
            } else {
                hex_digits()[uuid_nibble(id, uuid_digit_index(i))]
            },
    )
}

/// The identifier text is 36 characters long, made of lowercase hex digits and hyphens only.
pub proof fn lemma_uuid_text_shape(id: u128)
    ensures
        uuid_text(id).len() == 36,
        forall|i: int|
            0 <= i < 36 ==> (#[trigger] uuid_text(id)[i] == '-' || is_lower_hex_char(uuid_text(id)[i])),
        !uuid_text(id).contains('.'),
{
    assert forall|i: int| 0 <= i < 36 implies (#[trigger] uuid_text(id)[i] == '-' || is_lower_hex_char(uuid_text(id)[i])) by {
        if !is_uuid_hyphen_position(i) {
            let k = uuid_digit_index(i);
            let shift = (124 - 4 * k) as u128;
            assert(((id >> shift) & 15u128) <= 15u128) by (bit_vector);
        }
    }
}

/// The byte lengths of the identifier texts that `uuid::Uuid::parse_str` reads: simple,
/// hyphenated, braced, URN.
pub open spec fn is_uuid_text_length(n: nat) -> bool {
    n == 32 || n == 36 || n == 38 || n == 45
}

/// What `uuid::Uuid::parse_str` yields on a text, as the 128-bit value of the identifier.
pub uninterp spec fn uuid_parsed(text: Seq<char>) -> Option<u128>;

/// Identifier parsing, by the `uuid` crate.
/// Trusted: `Uuid::parse_str` gives back every identifier from its own hyphenated text
/// (its documented round trip with `to_string`). What it accepts otherwise is left to the
/// name `uuid_parsed`, except that only texts of 32, 36, 38 or 45 bytes can be accepted
/// (`try_parse` in `parser.rs`).
#[verifier::external_body]
pub(crate) fn parse_uuid(text: &str) -> (id: Option<u128>)
    ensures
        id == uuid_parsed(text@),
        forall|u: u128| text@ == #[trigger] uuid_text(u) ==> id == Some(u),
        id is Some ==> is_uuid_text_length(vstd::utf8::encode_utf8(text@).len()),
{
    match uuid::Uuid::parse_str(text) {
        Ok(parsed) => Some(parsed.as_u128()),
        Err(_) => None,
    }
}

/// Hyphenated text of an identifier, by the `uuid` crate.
/// Trusted: `Uuid`'s `Display` writes the lowercase hyphenated form of its 16 bytes.
#[verifier::external_body]
pub(crate) fn uuid_to_text(id: u128) -> (text: String)
    ensures
        text@ == uuid_text(id),
{
    uuid::Uuid::from_u128(id).to_string()
}

/// A fresh random (version 4) identifier, by the `uuid` crate. Nothing is promised of its value.
#[verifier::external_body]
pub(crate) fn new_uuid_v4() -> u128 {
    uuid::Uuid::new_v4().as_u128()
}

} // verus!
