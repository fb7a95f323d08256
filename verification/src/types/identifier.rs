//! Correlation identifiers: the 128-bit value that links a response shown to
//! a client with the log entry written for it.

use vstd::prelude::*;
use crate::utils::json::hex_digit;

verus! {

/// A correlation identifier, held as the 128 bits of a UUID with the first
/// byte in the most significant position.
#[derive(Clone, Copy, Debug, PartialEq, Eq, Structural)]
pub struct Identifier {
    pub bits: u128,
}

/// The bits carry version 4 and the variant of RFC 4122.
pub open spec fn is_v4(bits: u128) -> bool {
    bits & 0x0000_0000_0000_f000_c000_0000_0000_0000u128
        == 0x0000_0000_0000_4000_8000_0000_0000_0000u128
}

/// The `k`-th of the 32 hexadecimal digits of `bits`, counted from the most
/// significant one.
pub open spec fn nibble(bits: u128, k: int) -> int
    recommends
        0 <= k < 32,
{
    ((bits >> ((4 * (31 - k)) as u128)) & 0xf) as int
}

/// A position of the textual form that holds a hyphen.
pub open spec fn is_hyphen_position(i: int) -> bool {
    i == 8 || i == 13 || i == 18 || i == 23
}

/// How many hyphens stand before position `i` of the textual form.
pub open spec fn hyphens_before(i: int) -> int {
    if i < 8 {
        0
    } else if i < 13 {
        1
    } else if i < 18 {
        2
    } else if i < 23 {
        3
    } else {
        4
    }
}

/// The hyphenated textual form: 32 lower-case hexadecimal digits in groups
/// of 8, 4, 4, 4 and 12.
pub open spec fn hyphenated(bits: u128) -> Seq<char> {
    Seq::new(
        36,
        |i: int|
            if is_hyphen_position(i) {
                '-'
            } else {
                hex_digit(nibble(bits, i - hyphens_before(i)))
            },
    )
}

/// A lower-case hexadecimal digit.
pub open spec fn is_lower_hex(c: char) -> bool {
    ('0' <= c && c <= '9') || ('a' <= c && c <= 'f')
}

/// `s` has the shape of a hyphenated UUID.
pub open spec fn is_uuid_text(s: Seq<char>) -> bool {
    &&& s.len() == 36
    &&& forall|i: int|
        0 <= i < 36 ==> if is_hyphen_position(i) {
            #[trigger] s[i] == '-'
        } else {
            is_lower_hex(s[i])
        }
}

/// Calls `Uuid::new_v4` and hands out its 128 bits. Whatever the random
/// source gave, the crate sets the version to 4 and the variant to RFC 4122.
#[verifier::external_body]
fn random_v4() -> (bits: u128)
    ensures
        is_v4(bits),
{
    uuid::Uuid::new_v4().as_u128()
}

/// Calls the `Display` of `uuid::Uuid` on the identifier with these bits:
/// the lower-case hyphenated form.
#[verifier::external_body]
fn format_hyphenated(bits: u128) -> (s: String)
    ensures
        s@ == hyphenated(bits),
{
    uuid::Uuid::from_u128(bits).to_string()
}

impl Identifier {
    pub open spec fn v4(self) -> bool {
        is_v4(self.bits)
    }

    /// The textual form that clients and log readers see.
    pub open spec fn text(self) -> Seq<char> {
        hyphenated(self.bits)
    }

    /// A fresh random identifier.
    pub fn new_v4() -> (id: Identifier)
        ensures
            id.v4(),
    {
        Identifier { bits: random_v4() }
    }

    /// The identifier with the given bits.
    pub fn from_u128(bits: u128) -> (id: Identifier)
        ensures
            id.bits == bits,
    {
        Identifier { bits }
    }

    pub fn to_string(&self) -> (s: String)
        ensures
            s@ == self.text(),
    {
        format_hyphenated(self.bits)
    }
}

/// Every identifier is written as a syntactically valid UUID.
pub proof fn lemma_text_is_uuid(bits: u128)
    ensures
        is_uuid_text(hyphenated(bits)),
{
    let s = hyphenated(bits);
    assert forall|i: int| 0 <= i < 36 implies if is_hyphen_position(i) {
        #[trigger] s[i] == '-'
    } else {
        is_lower_hex(s[i])
    } by {
        if !is_hyphen_position(i) {
            let k = i - hyphens_before(i);
            let shift = (4 * (31 - k)) as u128;
            assert(((bits >> shift) & 0xf) < 16) by (bit_vector);
        }
    }
}

/// The textual form of a version 4 identifier shows its version and variant.
pub proof fn lemma_v4_text(bits: u128)
    requires
        is_v4(bits),
    ensures
        hyphenated(bits)[14] == '4',
        hyphenated(bits)[19] == '8' || hyphenated(bits)[19] == '9' || hyphenated(bits)[19] == 'a'
            || hyphenated(bits)[19] == 'b',
{
    assert(bits & 0x0000_0000_0000_f000_c000_0000_0000_0000u128
        == 0x0000_0000_0000_4000_8000_0000_0000_0000u128 ==> ((bits >> 76u128) & 0xf) == 4 && 8
        <= ((bits >> 60u128) & 0xf) <= 11) by (bit_vector);
}

/// No character of the textual form needs escaping inside a JSON string.
pub proof fn lemma_text_is_plain(bits: u128)
    ensures
        forall|i: int|
            0 <= i < hyphenated(bits).len() ==> !crate::utils::json::needs_escape(
                #[trigger] hyphenated(bits)[i],
            ),
{
    lemma_text_is_uuid(bits);
}

} // verus!
