use crate::error::ServiceError;
use vstd::arithmetic::power::pow;
use vstd::prelude::*;

verus! {

/// The raw value of a record identifier: the 128 bits of a UUID, the first
/// byte of the UUID being the most significant.
#[derive(Debug, Clone, Copy, PartialEq, Eq, Structural, Hash)]
pub struct Identifier {
    pub bits: u128,
}

/// The lowercase hexadecimal digit for a value below sixteen.
pub open spec fn hex_digit(n: int) -> char {
    if n == 0 {
        '0'
    } else if n == 1 {
        '1'
    } else if n == 2 {
        '2'
    } else if n == 3 {
        '3'
    } else if n == 4 {
        '4'
    } else if n == 5 {
        '5'
    } else if n == 6 {
        '6'
    } else if n == 7 {
        '7'
    } else if n == 8 {
        '8'
    } else if n == 9 {
        '9'
    } else if n == 10 {
        'a'
    } else if n == 11 {
        'b'
    } else if n == 12 {
        'c'
    } else if n == 13 {
        'd'
    } else if n == 14 {
        'e'
    } else {
        'f'
    }
}

/// Whether a character is a decimal digit or one of `a` to `f`.
pub open spec fn is_hex_digit(c: char) -> bool {
    ('0' as u32 <= c as u32 && c as u32 <= '9' as u32) || ('a' as u32 <= c as u32 && c as u32
        <= 'f' as u32)
}

/// The places of the four hyphens in the 36 characters of a canonical
/// identifier text.
pub open spec fn is_hyphen_place(i: int) -> bool {
    i == 8 || i == 13 || i == 18 || i == 23
}

/// How many hexadecimal digits stand before place `i` of a canonical text.
pub open spec fn digits_before(i: int) -> int {
    if i > 23 {
        i - 4
    } else if i > 18 {
        i - 3
    } else if i > 13 {
        i - 2
    } else if i > 8 {
        i - 1
    } else {
        i
    }
}

/// The `k`-th of the 32 hexadecimal digits of `bits`, counted from the most
/// significant one.
pub open spec fn nibble(bits: u128, k: int) -> int {
    (bits as int / pow(16, (31 - k) as nat)) % 16
}

/// The canonical text of an identifier: 32 lowercase hexadecimal digits, most
/// significant first, in groups of 8, 4, 4, 4 and 12 with a hyphen between
/// two groups.
pub open spec fn canonical_text(bits: u128) -> Seq<char> {
    Seq::new(
        36,
        |i: int|
            if is_hyphen_place(i) {
                '-'
            } else {
                hex_digit(nibble(bits, digits_before(i)))
            },
    )
}

/// Whether a text has the canonical shape: 36 characters, hyphens at the four
/// places, lowercase hexadecimal digits everywhere else.
pub open spec fn well_formed_text(s: Seq<char>) -> bool {
    &&& s.len() == 36
    &&& forall|i: int|
        0 <= i < 36 ==> if is_hyphen_place(i) {
            #[trigger] s[i] == '-'
        } else {
            is_hex_digit(s[i])
        }
}

/// Whether the bits carry the marks of a randomly generated identifier:
/// version digit 4, and a variant digit among 8, 9, a and b.
pub open spec fn is_random_version(bits: u128) -> bool {
    nibble(bits, 12) == 4 && 8 <= nibble(bits, 16) < 12
}

/// Whether a text is the canonical text of a randomly generated identifier.
pub open spec fn is_issued_text(s: Seq<char>) -> bool {
    exists|bits: u128| is_random_version(bits) && s == #[trigger] canonical_text(bits)
}

/// What `uuid::Uuid::from_str` makes of a text: the bits of the identifier it
/// reads, or nothing where it refuses the text.
pub uninterp spec fn parsed_identifier(text: Seq<char>) -> Option<u128>;

/// Draws a new identifier with `uuid::Uuid::new_v4`, which fills the bits from
/// the operating system's random source and then sets the version to 4 and
/// the variant to the RFC 4122 one. Nothing else is claimed of the bits.
#[verifier::external_body]
pub(crate) fn fresh_identifier() -> (id: Identifier)
    ensures
        is_random_version(id.bits),
{
    Identifier { bits: uuid::Uuid::new_v4().as_u128() }
}

/// Renders an identifier with the `Display` of `uuid::Uuid`, which writes the
/// hyphenated lowercase form. The claim is that the text is the canonical one
/// and that `uuid::Uuid::from_str` reads the same bits back from it.
#[verifier::external_body]
pub(crate) fn identifier_text(id: Identifier) -> (text: String)
    ensures
        text@ == canonical_text(id.bits),
        parsed_identifier(text@) == Some(id.bits),
{
    uuid::Uuid::from_u128(id.bits).to_string()
}

/// Reads an identifier with `uuid::Uuid::from_str`. The result is named, not
/// described: the parser takes several spellings besides the canonical one.
#[verifier::external_body]
pub(crate) fn parse_identifier(text: &str) -> (id: Option<Identifier>)
    ensures
        id is Some <==> parsed_identifier(text@) is Some,
        id matches Some(found) ==> parsed_identifier(text@) == Some(found.bits),
{
    match <uuid::Uuid as std::str::FromStr>::from_str(text) {
        Ok(found) => Some(Identifier { bits: found.as_u128() }),
        Err(_) => None,
    }
}

/// Reads the identifier that a read operation was asked for. The text is
/// taken in every spelling that the parser knows; any other text is an
/// invalid identifier.
pub fn read_identifier(text: &str) -> (r: Result<Identifier, ServiceError>)
    ensures
        match parsed_identifier(text@) {
            Some(bits) => r == Ok::<Identifier, ServiceError>(Identifier { bits }),
            None => r == Err::<Identifier, ServiceError>(ServiceError::InvalidIdentifier),
        },
{
    match parse_identifier(text) {
        Some(id) => Ok(id),
        None => Err(ServiceError::InvalidIdentifier),
    }
}

/// Every canonical text is well formed.
pub proof fn lemma_canonical_text_well_formed(bits: u128)
    ensures
        well_formed_text(canonical_text(bits)),
{
    let s = canonical_text(bits);
    assert forall|i: int| 0 <= i < 36 implies if is_hyphen_place(i) {
        #[trigger] s[i] == '-'
    } else {
        is_hex_digit(s[i])
    } by {
        if !is_hyphen_place(i) {
            let n = nibble(bits, digits_before(i));
            assert(0 <= n < 16);
            assert(is_hex_digit(hex_digit(n)));
        }
    }
}

/// The canonical text of bits that carry the marks of a random identifier
/// is an issued text, and so well formed.
pub proof fn lemma_random_bits_give_issued_text(bits: u128)
    requires
        is_random_version(bits),
    ensures
        is_issued_text(canonical_text(bits)),
        well_formed_text(canonical_text(bits)),
{
    lemma_canonical_text_well_formed(bits);
}

/// The canonical text of a randomly generated identifier shows its marks:
/// the digit after the second hyphen is `4`, the one after the third hyphen
/// is one of `8`, `9`, `a` and `b`.
pub proof fn lemma_issued_text_marks(s: Seq<char>)
    requires
        is_issued_text(s),
    ensures
        well_formed_text(s),
        s[14] == '4',
        s[19] == '8' || s[19] == '9' || s[19] == 'a' || s[19] == 'b',
{
    let bits = choose|bits: u128| is_random_version(bits) && s == #[trigger] canonical_text(bits);
    lemma_canonical_text_well_formed(bits);
    assert(digits_before(14) == 12);
    assert(digits_before(19) == 16);
    assert(s[14] == hex_digit(nibble(bits, 12)));
    assert(s[19] == hex_digit(nibble(bits, 16)));
}

} // verus!
