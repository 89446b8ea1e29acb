//! The identities of peers, sessions and pipelines.
use vstd::prelude::*;

verus! {

/// A 128-bit identity.
#[derive(Clone, Copy, Debug, PartialEq, Eq, Structural)]
pub struct PeerId {
    pub value: u128,
}

pub open spec fn pow16(n: nat) -> nat
    decreases n,
{
    if n == 0 {
        1
    } else {
        16 * pow16((n - 1) as nat)
    }
}

/// The lower case hexadecimal digit of a number below sixteen.
pub open spec fn hex_digit(d: int) -> char {
    if d < 10 {
        (48 + d) as char
    } else {
        (87 + d) as char
    }
}

/// How many hyphens stand before a position.
pub open spec fn hyphens_before(position: int) -> int {
    if position < 9 {
        0
    } else if position < 14 {
        1
    } else if position < 19 {
        2
    } else if position < 24 {
        3
    } else {
        4
    }
}

pub open spec fn is_hyphen(position: int) -> bool {
    position == 8 || position == 13 || position == 18 || position == 23
}

/// An identity in its usual form: thirty-two hexadecimal digits, the highest
/// first, in groups of 8, 4, 4, 4 and 12.
pub open spec fn id_text(value: u128) -> Seq<char> {
    Seq::new(
        36,
        |p: int|
            if is_hyphen(p) {
                '-'
            } else {
                hex_digit(
                    (value as int / pow16((31 - (p - hyphens_before(p))) as nat) as int) % 16,
                )
            },
    )
}

/// `uuid::Uuid`'s `Display`: the identity in its usual form.
#[verifier::external_body]
fn uuid_to_string(value: u128) -> (r: String)
    ensures
        r@ == id_text(value),
{
    uuid::Uuid::from_u128(value).to_string()
}

impl PeerId {
    /// The identity in its usual form.
    pub fn text(&self) -> (r: String)
        ensures
            r@ == id_text(self.value),
    {
        uuid_to_string(self.value)
    }
}

/// An identity is written in groups of 8, 4, 4, 4 and 12 lower case hexadecimal digits
/// with hyphens between them; its last digit is what is left of it over sixteen.
pub proof fn identities_are_written_in_groups(value: u128, p: int)
    requires
        0 <= p < 36,
    ensures
        id_text(value).len() == 36,
        id_text(value)[p] == '-' <==> p == 8 || p == 13 || p == 18 || p == 23,
        id_text(value)[p] != '-' ==> ('0' <= id_text(value)[p] && id_text(value)[p] <= '9') || (
        'a' <= id_text(value)[p] && id_text(value)[p] <= 'f'),
        value % 16 < 10 ==> id_text(value)[35] as int == '0' as int + value % 16,
        value % 16 >= 10 ==> id_text(value)[35] as int == 'a' as int + (value % 16 - 10),
{
    let last = hex_digit((value as int / pow16(0) as int) % 16);
    assert(pow16(0) as int == 1);
    assert(value as int / 1 == value as int);
    assert(id_text(value)[35] == last);
}

} // verus!
