//! Incarnation ids: the 128 bits of a UUID that tell the incarnations of an
//! actor apart.

use vstd::arithmetic::power::pow;
use vstd::prelude::*;

verus! {

/// Identifies one incarnation of an actor. A new one is drawn each time an
/// actor is spawned, also at an address that was in use before, and each time it
/// is restarted.
#[derive(Clone, Copy, Debug, PartialEq, Eq, Hash, Structural)]
pub struct IncarnationId {
    /// The UUID as a big-endian number.
    pub bits: u128,
}

/// The error of `uuid` for a text that is no UUID.
#[verifier::external_type_specification]
#[verifier::external_body]
pub struct ExUuidError(uuid::Error);

/// The lower-case hexadecimal digit `d`.
pub open spec fn hex_digit(d: int) -> char {
    if d < 10 {
        crate::text::digit(d as nat)
    } else if d == 10 {
        'a'
    } else if d == 11 {
        'b'
    } else if d == 12 {
        'c'
    } else if d == 13 {
        'd'
    } else if d == 14 {
        'e'
    } else {
        'f'
    }
}

/// The four places of the hyphens in the text of a UUID.
pub open spec fn hyphen_place(i: int) -> bool {
    i == 8 || i == 13 || i == 18 || i == 23
}

/// How many hyphens stand before place `i` in the text of a UUID.
pub open spec fn hyphens_before(i: int) -> int {
    if i < 8 {
        0
    } else if i < 13 {
        1
    } else if i < 18 {
        2
    } else if i < 23 {
        3
    } else {
        4
    }
}

/// The hyphenated text of a UUID: 32 hexadecimal digits, the highest first, in
/// groups of 8, 4, 4, 4 and 12.
pub open spec fn uuid_text(bits: u128) -> Seq<char> {
    Seq::new(
        36,
        |i: int|
            if hyphen_place(i) {
                '-'
            } else {
                hex_digit((bits as int / pow(16, (31 - (i - hyphens_before(i))) as nat)) % 16)
            },
    )
}

/// A version 4 UUID of the usual variant: the version digit is 4 and the two
/// bits of the variant are 1 and 0.
pub open spec fn is_version_4(bits: u128) -> bool {
    &&& (bits as int / 0x1000_0000_0000_0000_0000int) % 16 == 4
    &&& (bits as int / 0x4000_0000_0000_0000int) % 4 == 2
}

/// What `uuid::Uuid::parse_str` reads in a text, if it is the text of a UUID.
pub uninterp spec fn parsed_uuid(text: Seq<char>) -> Option<u128>;

/// Calls `uuid::Uuid::parse_str`, which accepts the plain, the hyphenated, the
/// braced and the URN form. Claims that what it gives depends on the text
/// alone.
#[verifier::external_body]
fn parse_uuid(text: &str) -> (res: Result<u128, uuid::Error>)
    ensures
        match res {
            Ok(bits) => parsed_uuid(text@) == Some(bits),
            Err(_) => parsed_uuid(text@) is None,
        },
{
    match uuid::Uuid::parse_str(text) {
        Ok(id) => Ok(id.as_u128()),
        Err(e) => Err(e),
    }
}

/// Calls `to_string` of `uuid::Uuid`. Claims that it gives the hyphenated
/// lower-case text, and that `uuid::Uuid::parse_str` reads that text as the
/// same UUID.
#[verifier::external_body]
fn format_uuid(bits: u128) -> (text: String)
    ensures
        text@ == uuid_text(bits),
        parsed_uuid(text@) == Some(bits),
{
    uuid::Uuid::from_u128(bits).to_string()
}

/// Calls `uuid::Uuid::new_v4`, which draws random bits. Claims the version and
/// the variant of what it gives. That two calls give different ids is a matter
/// of chance and is not claimed. Where the operating system has no random bits
/// to give, the call panics.
#[verifier::external_body]
fn random_uuid() -> (bits: u128)
    ensures
        is_version_4(bits),
{
    uuid::Uuid::new_v4().as_u128()
}

/// The bits were drawn by `uuid::Uuid::new_v4`.
pub closed spec fn drawn(bits: u128) -> bool {
    call_ensures(random_uuid, (), bits)
}

impl IncarnationId {
    /// Draw a fresh id.
    pub fn fresh() -> (id: IncarnationId)
        ensures
            drawn(id.bits),
            is_version_4(id.bits),
    {
        IncarnationId { bits: random_uuid() }
    }

    /// Read the text of an id.
    pub fn parse(text: &str) -> (res: Result<IncarnationId, uuid::Error>)
        ensures
            match res {
                Ok(id) => parsed_uuid(text@) == Some(id.bits),
                Err(_) => parsed_uuid(text@) is None,
            },
    {
        match parse_uuid(text) {
            Ok(bits) => Ok(IncarnationId { bits }),
            Err(e) => Err(e),
        }
    }

    /// The text of this id. Reading it gives the id back.
    pub fn to_string(&self) -> (text: String)
        ensures
            text@ == uuid_text(self.bits),
            parsed_uuid(text@) == Some(self.bits),
    {
        format_uuid(self.bits)
    }
}

/// The text of an id holds neither of the characters that mark the parts of an
/// address.
pub proof fn law_uuid_text_holds_no_mark(bits: u128)
    ensures
        uuid_text(bits).len() == 36,
        !uuid_text(bits).contains('/'),
        !uuid_text(bits).contains('#'),
{
}

/// The text of an id has a hyphen at its four places and a lower-case digit
/// everywhere else. The digits are those of the id to the base sixteen, the
/// highest first, so ids with the same text are the same.
pub proof fn law_ids_are_written_in_hexadecimal(bits: u128, i: int)
    requires
        0 <= i < 36,
    ensures
        ({
            let c = uuid_text(bits)[i];
            let hyphens: int = if i < 8 {
                0
            } else if i < 13 {
                1
            } else if i < 18 {
                2
            } else if i < 23 {
                3
            } else {
                4
            };
            let d = (bits as int / pow(16, (31 - (i - hyphens)) as nat)) % 16;
            if i == 8 || i == 13 || i == 18 || i == 23 {
                c == '-'
            } else if d < 10 {
                c as int == '0' as int + d
            } else {
                c as int == 'a' as int + d - 10
            }
        }),
{
}

/// An id is read as what its text holds, its own text reads as it, and a fresh one
/// is of the version that is drawn at random.
pub proof fn law_ids_are_read_back(
    id: &IncarnationId,
    text: &str,
    own: String,
    res: Result<IncarnationId, uuid::Error>,
)
    ensures
        call_ensures(IncarnationId::to_string, (id,), own) ==> own@ == uuid_text(id.bits)
            && parsed_uuid(own@) == Some(id.bits),
        call_ensures(IncarnationId::parse, (text,), res) ==> (res is Ok <==> parsed_uuid(text@)
            is Some) && (res matches Ok(read) ==> parsed_uuid(text@) == Some(read.bits)),
        call_ensures(IncarnationId::fresh, (), *id) ==> (id.bits as int
            / 0x1000_0000_0000_0000_0000int) % 16 == 4 && (id.bits as int
            / 0x4000_0000_0000_0000int) % 4 == 2 && drawn(id.bits),
{
}

/// A fresh id is one that was drawn.
proof fn law_fresh_ids_are_drawn(id: IncarnationId)
    ensures
        call_ensures(IncarnationId::fresh, (), id) ==> call_ensures(random_uuid, (), id.bits),
        drawn(id.bits) <==> call_ensures(random_uuid, (), id.bits),
{
}

} // verus!
