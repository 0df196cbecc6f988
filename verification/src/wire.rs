//! The text by which a reference to an actor crosses process boundaries:
//! `address#incarnation_id`.

use crate::address::{
    address_text, parsed_address, slashed, valid_path, ActorAddress, AddressError,
    AddressFault, AddressView,
};
use crate::incarnation::{parsed_uuid, uuid_text, IncarnationId};
use crate::message::{ActorIdentity, IdentityView};
use crate::text::{find_char, first_position};
use vstd::prelude::*;
use vstd::string::StrSliceExecFns;
use vstd::string::StringExecFns;

verus! {

/// Why a text is no reference to an actor.
#[derive(Debug)]
pub enum WireError {
    /// There is no `#`.
    Format,
    /// What stands before the first `#` is no address.
    Address(AddressError),
    /// What stands behind the first `#` is no UUID.
    Incarnation(uuid::Error),
}

/// A wire error over views.
pub enum WireFault {
    Format,
    Address(AddressFault),
    Incarnation,
}

impl View for WireError {
    type V = WireFault;

    open spec fn view(&self) -> WireFault {
        match self {
            WireError::Format => WireFault::Format,
            WireError::Address(e) => WireFault::Address(e@),
            WireError::Incarnation(_) => WireFault::Incarnation,
        }
    }
}

/// Calls `to_string` of `uuid::Error`. Claims nothing of the text.
#[verifier::external_body]
fn uuid_error_text(e: &uuid::Error) -> (text: String) {
    e.to_string()
}

/// `text` is how `uuid` describes its error.
pub closed spec fn describes_uuid_error(e: uuid::Error, text: String) -> bool {
    call_ensures(uuid_error_text, (&e,), text)
}

/// What stands before the first `#`.
pub open spec fn address_part(s: Seq<char>) -> Seq<char> {
    s.take(first_position(s, '#') as int)
}

/// What stands behind the first `#`, if there is one.
pub open spec fn id_part(s: Seq<char>) -> Option<Seq<char>> {
    if first_position(s, '#') < s.len() {
        Some(s.skip(first_position(s, '#') as int + 1))
    } else {
        None
    }
}

/// The text of a reference: its address, `#`, and its incarnation id.
pub open spec fn wire_text(id: IdentityView) -> Seq<char> {
    address_text(id.address) + seq!['#'] + uuid_text(id.incarnation_id.bits)
}

/// What the text of a reference reads as.
pub open spec fn parsed_wire(s: Seq<char>) -> Result<IdentityView, WireFault> {
    match id_part(s) {
        None => Err(WireFault::Format),
        Some(id) => match parsed_address(address_part(s)) {
            Err(fault) => Err(WireFault::Address(fault)),
            Ok(address) => match parsed_uuid(id) {
                None => Err(WireFault::Incarnation),
                Some(bits) => Ok(
                    IdentityView { address, incarnation_id: IncarnationId { bits } },
                ),
            },
        },
    }
}

/// The result of reading a reference, over views.
pub open spec fn wire_result(r: Result<ActorIdentity, WireError>) -> Result<
    IdentityView,
    WireFault,
> {
    match r {
        Ok(id) => Ok(id@),
        Err(e) => Err(e@),
    }
}

/// The addresses whose text reads back, also with an id behind it: the path is
/// valid, the node is a non-empty text without `/`, and `#` stands nowhere.
pub open spec fn plain_address(a: AddressView) -> bool {
    &&& valid_path(a.path)
    &&& a.node_id.len() > 0
    &&& !a.node_id.contains('/')
    &&& !address_text(a).contains('#')
}

/// Cut a text at its first `#`.
pub fn cut_at_hash(s: &str) -> (parts: (&str, Option<&str>))
    ensures
        parts.0@ == address_part(s@),
        match parts.1 {
            Some(id) => id_part(s@) == Some(id@),
            None => id_part(s@) is None,
        },
{
    let at: usize = find_char(s, '#');
    proof {
        crate::text::lemma_first_position(s@, '#');
    }
    let n: usize = s.unicode_len();
    let before: &str = s.substring_char(0, at);
    assert(before@ =~= address_part(s@));
    if at < n {
        let behind: &str = s.substring_char(at + 1, n);
        assert(behind@ =~= s@.skip(at + 1));
        (before, Some(behind))
    } else {
        (before, None)
    }
}

/// The parts of the text of a reference with a plain address.
pub proof fn lemma_wire_parts(a: AddressView, id: Seq<char>)
    requires
        plain_address(a),
    ensures
        address_part(address_text(a) + seq!['#'] + id) == address_text(a),
        id_part(address_text(a) + seq!['#'] + id) == Some(id),
{
    let t = address_text(a);
    let s = t + seq!['#'] + id;
    assert forall|i: int| 0 <= i < t.len() implies s[i] != '#' by {
        assert(s[i] == t[i]);
        assert(t.contains(t[i]));
    }
    assert(s[t.len() as int] == '#');
    crate::text::lemma_first_position_is(s, '#', t.len());
    assert(s.take(t.len() as int) =~= t);
    assert(s.skip(t.len() as int + 1) =~= id);
}

/// The text of a list of segments without `#` holds none.
proof fn lemma_slashed_without_hash(path: Seq<Seq<char>>)
    requires
        forall|i: int| 0 <= i < path.len() ==> !(#[trigger] path[i]).contains('#'),
    ensures
        !slashed(path).contains('#'),
    decreases path.len(),
{
    if path.len() > 0 {
        let rest = path.drop_last();
        assert forall|i: int| 0 <= i < rest.len() implies !(#[trigger] rest[i]).contains('#') by {
            assert(rest[i] == path[i]);
        }
        lemma_slashed_without_hash(rest);
        let text = slashed(path);
        if text.contains('#') {
            let k = choose|k: int| 0 <= k < text.len() && text[k] == '#';
            let n = slashed(rest).len();
            if k < n {
                assert(slashed(rest)[k] == '#');
            } else if k > n {
                assert(path.last()[k - n - 1] == '#');
                assert(path[path.len() - 1].contains('#'));
            }
        }
    }
}

/// An address reads back, also with an id behind it, if its path is valid, its
/// node is a non-empty text without `/`, and neither holds `#`.
pub proof fn law_addresses_without_hash_are_plain(a: AddressView)
    requires
        valid_path(a.path),
        a.node_id.len() > 0,
        !a.node_id.contains('/'),
        !a.node_id.contains('#'),
        forall|i: int| 0 <= i < a.path.len() ==> !(#[trigger] a.path[i]).contains('#'),
    ensures
        plain_address(a),
{
    reveal_strlit("actor://");
    lemma_slashed_without_hash(a.path);
    let tail = slashed(a.path);
    let text = address_text(a);
    if text.contains('#') {
        let k = choose|k: int| 0 <= k < text.len() && text[k] == '#';
        if k >= 8 && k < 8 + a.node_id.len() {
            assert(a.node_id[k - 8] == '#');
        } else if k >= 8 {
            assert(tail[k - 8 - a.node_id.len()] == '#');
        }
    }
}

impl WireError {
    /// Describe the error.
    pub fn to_string(&self) -> (text: String)
        ensures
            match self {
                WireError::Format => text@ == "expected format '<address>#<incarnation_id>'"@,
                WireError::Address(e) => text@ == AddressError::message(e@),
                WireError::Incarnation(e) => describes_uuid_error(*e, text),
            },
    {
        match self {
            WireError::Format => "expected format '<address>#<incarnation_id>'".to_owned(),
            WireError::Address(e) => e.to_string(),
            WireError::Incarnation(e) => uuid_error_text(e),
        }
    }
}

/// The text of the reference with this address and id. With a plain address,
/// reading the text gives the reference back.
pub fn to_wire(address: &ActorAddress, id: IncarnationId) -> (text: String)
    ensures
        text@ == wire_text(IdentityView { address: address@, incarnation_id: id }),
        plain_address(address@) ==> parsed_wire(text@) == Ok::<IdentityView, WireFault>(
            (IdentityView { address: address@, incarnation_id: id }),
        ),
{
    let id_text: String = id.to_string();
    let text: String = address.to_string().concat("#").concat(id_text.as_str());
    proof {
        reveal_strlit("#");
        assert("#"@ =~= seq!['#']);
        if plain_address(address@) {
            lemma_wire_parts(address@, id_text@);
            crate::address::law_address_text_reads_back(address@);
        }
    }
    text
}

/// The reference with the address that a text reads as and an id that was read
/// from another. A fault of the address comes before that of the id.
pub fn assemble(address_str: &str, id: Result<IncarnationId, uuid::Error>) -> (res: Result<
    ActorIdentity,
    WireError,
>)
    ensures
        wire_result(res) == match parsed_address(address_str@) {
            Err(fault) => Err::<IdentityView, WireFault>(WireFault::Address(fault)),
            Ok(address) => match id {
                Err(_) => Err(WireFault::Incarnation),
                Ok(incarnation_id) => Ok(IdentityView { address, incarnation_id }),
            },
        },
{
    match ActorAddress::from_str(address_str) {
        Err(e) => Err(WireError::Address(e)),
        Ok(address) => match id {
            Err(e) => Err(WireError::Incarnation(e)),
            Ok(incarnation_id) => Ok(ActorIdentity { address, incarnation_id }),
        },
    }
}

/// Read the text of a reference.
pub fn from_wire(s: &str) -> (res: Result<ActorIdentity, WireError>)
    ensures
        wire_result(res) == parsed_wire(s@),
{
    let (address_str, id_str) = cut_at_hash(s);
    match id_str {
        None => Err(WireError::Format),
        Some(id_str) => assemble(address_str, IncarnationId::parse(id_str)),
    }
}

/// The text of a reference is the text of its address, a `#` and the text of its
/// id.
pub proof fn law_references_are_written_as_address_and_id(
    address: &ActorAddress,
    id: IncarnationId,
    text: String,
)
    requires
        call_ensures(to_wire, (address, id), text),
    ensures
        text@ == address_text(address@) + seq!['#'] + uuid_text(id.bits),
{
}

/// The text of a reference is read as the address before its first `#` and the id
/// behind it. A text without a `#` is no reference, and a fault of the address
/// comes before that of the id.
pub proof fn law_references_are_read_as_address_and_id(
    text: &str,
    address: Seq<char>,
    id: Seq<char>,
    res: Result<ActorIdentity, WireError>,
)
    requires
        call_ensures(from_wire, (text,), res),
        !address.contains('#'),
    ensures
        text@ == address ==> (res matches Err(e) && e is Format),
        text@ == address + seq!['#'] + id ==> {
            &&& parsed_address(address) matches Err(fault) ==> (res matches Err(
                WireError::Address(e),
            ) && e@ == fault)
            &&& parsed_address(address) is Ok && parsed_uuid(id) is None ==> (res matches Err(
                WireError::Incarnation(_),
            ))
            &&& parsed_address(address) is Ok && parsed_uuid(id) is Some ==> (res matches Ok(read)
                && read.address@ == parsed_address(address)->Ok_0 && read.incarnation_id.bits
                == parsed_uuid(id)->Some_0)
        },
{
    let s = text@;
    let n = address.len();
    if s == address {
        crate::text::lemma_first_position(s, '#');
    }
    if s == address + seq!['#'] + id {
        assert forall|i: int| 0 <= i < n implies s[i] != '#' by {
            assert(s[i] == address[i]);
            assert(address.contains(address[i]));
        }
        assert(s[n as int] == '#');
        crate::text::lemma_first_position_is(s, '#', n);
        assert(s.take(n as int) =~= address);
        assert(s.skip(n as int + 1) =~= id);
    }
}

/// A text is cut at its first `#`: what stands before it and what stands behind
/// it make up the text again.
pub proof fn law_texts_are_cut_at_the_first_hash(s: &str, parts: (&str, Option<&str>))
    requires
        call_ensures(cut_at_hash, (s,), parts),
    ensures
        !parts.0@.contains('#'),
        parts.1 is Some <==> s@.contains('#'),
        s@ == match parts.1 {
            Some(id) => parts.0@ + seq!['#'] + id@,
            None => parts.0@,
        },
{
    crate::text::lemma_first_position(s@, '#');
    let at = crate::text::first_position(s@, '#') as int;
    if parts.0@.contains('#') {
        let i = choose|i: int| 0 <= i < parts.0@.len() && parts.0@[i] == '#';
        assert(s@[i] == '#');
    }
    match parts.1 {
        Some(id) => {
            assert(s@ =~= parts.0@ + seq!['#'] + id@);
        },
        None => {
            assert(s@ =~= parts.0@);
        },
    }
}

/// A reference is put together from the address that a text reads as and the id
/// that was read.
pub proof fn law_references_are_put_together(
    address: &str,
    id: Result<IncarnationId, uuid::Error>,
    res: Result<ActorIdentity, WireError>,
    e: &WireError,
    text: String,
)
    ensures
        call_ensures(assemble, (address, id), res) ==> {
            &&& parsed_address(address@) matches Err(fault) ==> (res matches Err(
                WireError::Address(e),
            ) && e@ == fault)
            &&& parsed_address(address@) is Ok && id is Err ==> (res matches Err(
                WireError::Incarnation(_),
            ))
            &&& parsed_address(address@) is Ok && id is Ok ==> (res matches Ok(read)
                && read.address@ == parsed_address(address@)->Ok_0 && read.incarnation_id
                == id->Ok_0)
        },
        call_ensures(WireError::to_string, (e,), text) ==> match e {
            WireError::Format => text@ == "expected format '<address>#<incarnation_id>'"@,
            WireError::Address(AddressError::InvalidFormat(t)) => text@
                == "Invalid address format: "@ + t@,
            WireError::Address(AddressError::EmptyNodeId) => text@ == "Empty node ID"@,
            WireError::Address(AddressError::EmptyPath) => text@ == "Empty actor path"@,
            WireError::Address(AddressError::InvalidPathSegment(t)) => text@
                == "Invalid path segment: "@ + t@,
            WireError::Incarnation(e) => describes_uuid_error(*e, text),
        },
{
}

} // verus!
