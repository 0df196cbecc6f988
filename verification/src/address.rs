//! Actor addresses: `actor://node_id/path`, where the path names an actor
//! within its node, as in `actor://node1/user/crawler-manager`.

use crate::text::{cut_nonempty, find_char, has_char, same_text, starts_with};
use vstd::prelude::*;
use vstd::string::StrSliceExecFns;
use vstd::string::StringExecFns;

verus! {

/// Hierarchical actor path within a node, as in `/user/crawler/url-123456`.
#[derive(Debug, Hash)]
pub struct ActorPath {
    /// Path segments, as in `["user", "crawler-manager"]`.
    pub segments: Vec<String>,
}

/// Where an actor lives.
#[derive(Debug, Hash)]
pub struct ActorAddress {
    /// Identifier of the node that hosts the actor.
    pub node_id: String,
    /// Path of the actor within the node.
    pub path: ActorPath,
}

/// Why a path or an address was refused.
#[derive(Debug)]
pub enum AddressError {
    InvalidFormat(String),
    EmptyNodeId,
    EmptyPath,
    InvalidPathSegment(String),
}

/// An address as node text and segment texts.
#[verifier::ext_equal]
pub struct AddressView {
    pub node_id: Seq<char>,
    pub path: Seq<Seq<char>>,
}

/// An address error with its text.
pub enum AddressFault {
    InvalidFormat(Seq<char>),
    EmptyNodeId,
    EmptyPath,
    InvalidPathSegment(Seq<char>),
}

impl View for ActorPath {
    type V = Seq<Seq<char>>;

    open spec fn view(&self) -> Seq<Seq<char>> {
        crate::text::texts(self.segments@)
    }
}

impl View for ActorAddress {
    type V = AddressView;

    open spec fn view(&self) -> AddressView {
        AddressView { node_id: self.node_id@, path: self.path@ }
    }
}

impl View for AddressError {
    type V = AddressFault;

    open spec fn view(&self) -> AddressFault {
        match self {
            AddressError::InvalidFormat(s) => AddressFault::InvalidFormat(s@),
            AddressError::EmptyNodeId => AddressFault::EmptyNodeId,
            AddressError::EmptyPath => AddressFault::EmptyPath,
            AddressError::InvalidPathSegment(s) => AddressFault::InvalidPathSegment(s@),
        }
    }
}

/// A path result as texts.
pub open spec fn path_result(r: Result<ActorPath, AddressError>) -> Result<
    Seq<Seq<char>>,
    AddressFault,
> {
    match r {
        Ok(p) => Ok(p@),
        Err(e) => Err(e@),
    }
}

/// An address result as texts.
pub open spec fn address_result(r: Result<ActorAddress, AddressError>) -> Result<
    AddressView,
    AddressFault,
> {
    match r {
        Ok(a) => Ok(a@),
        Err(e) => Err(e@),
    }
}

/// A segment is valid if it is not empty and holds no `/`.
pub open spec fn valid_segment(s: Seq<char>) -> bool {
    s.len() > 0 && !s.contains('/')
}

/// A path is valid if it has a segment and every segment is valid.
pub open spec fn valid_path(path: Seq<Seq<char>>) -> bool {
    path.len() > 0 && forall|i: int| 0 <= i < path.len() ==> valid_segment(#[trigger] path[i])
}

/// The position of the first segment that is not valid, or the number of
/// segments if all are.
pub open spec fn first_invalid(path: Seq<Seq<char>>) -> nat
    decreases path.len(),
{
    if path.len() == 0 || !valid_segment(path[0]) {
        0
    } else {
        1 + first_invalid(path.drop_first())
    }
}

/// What `ActorPath::new` makes of a list of segments: the path, or the fault of
/// an empty list or of the first segment that is not valid.
pub open spec fn checked_path(path: Seq<Seq<char>>) -> Result<Seq<Seq<char>>, AddressFault> {
    if path.len() == 0 {
        Err(AddressFault::EmptyPath)
    } else if first_invalid(path) < path.len() {
        Err(AddressFault::InvalidPathSegment(path[first_invalid(path) as int]))
    } else {
        Ok(path)
    }
}

/// Each segment with a `/` before it.
pub open spec fn slashed(path: Seq<Seq<char>>) -> Seq<char>
    decreases path.len(),
{
    if path.len() == 0 {
        Seq::empty()
    } else {
        slashed(path.drop_last()).push('/') + path.last()
    }
}

/// The text of a path: `/` and then the segments, with `/` between them.
pub open spec fn path_text(path: Seq<Seq<char>>) -> Seq<char> {
    if path.len() == 0 {
        seq!['/']
    } else {
        slashed(path)
    }
}

/// The text of an address: `actor://`, the node and the path.
pub open spec fn address_text(a: AddressView) -> Seq<char> {
    "actor://"@ + a.node_id + path_text(a.path)
}

/// What a path text reads as: it must open with `/`, and its segments are the
/// non-empty pieces between slashes, of which there must be one.
pub open spec fn parsed_path(s: Seq<char>) -> Result<Seq<Seq<char>>, AddressFault> {
    if s.len() > 0 && s[0] == '/' {
        let path = crate::text::nonempty_pieces(s.skip(1), '/');
        if path.len() == 0 {
            Err(AddressFault::EmptyPath)
        } else {
            Ok(path)
        }
    } else {
        Err(AddressFault::InvalidFormat("Path must start with '/': "@ + s))
    }
}

/// What an address text reads as: `actor://`, then the node up to the first
/// `/`, then the path. A fault of the path comes before that of an empty node.
pub open spec fn parsed_address(s: Seq<char>) -> Result<AddressView, AddressFault> {
    if !crate::text::opens_with(s, "actor://"@) {
        Err(AddressFault::InvalidFormat("Address must start with 'actor://': "@ + s))
    } else {
        let rest = s.skip(8);
        let at = crate::text::first_position(rest, '/') as int;
        if at == rest.len() {
            Err(
                AddressFault::InvalidFormat(
                    "Invalid format, expected 'actor://node_id/path': "@ + s,
                ),
            )
        } else {
            match parsed_path(rest.skip(at)) {
                Err(fault) => Err(fault),
                Ok(path) => if at == 0 {
                    Err(AddressFault::EmptyNodeId)
                } else {
                    Ok(AddressView { node_id: rest.take(at), path })
                },
            }
        }
    }
}

/// The first segment that is not valid stands where `first_invalid` says.
pub proof fn lemma_first_invalid(path: Seq<Seq<char>>)
    ensures
        first_invalid(path) <= path.len(),
        first_invalid(path) < path.len() ==> !valid_segment(path[first_invalid(path) as int]),
        forall|i: int| 0 <= i < first_invalid(path) ==> valid_segment(#[trigger] path[i]),
        path.len() > 0 ==> (valid_path(path) <==> first_invalid(path) == path.len()),
    decreases path.len(),
{
    if path.len() > 0 && valid_segment(path[0]) {
        let rest = path.drop_first();
        lemma_first_invalid(rest);
        assert forall|i: int| 0 <= i < first_invalid(path) implies valid_segment(
            #[trigger] path[i],
        ) by {
            if i > 0 {
                assert(rest[i - 1] == path[i]);
            }
        }
        if first_invalid(path) < path.len() {
            assert(path[first_invalid(path) as int] == rest[first_invalid(rest) as int]);
        }
    }
}

/// A position with a segment that is not valid, and none such before it, is the
/// first one.
proof fn lemma_first_invalid_is(path: Seq<Seq<char>>, n: nat)
    requires
        n <= path.len(),
        forall|i: int| 0 <= i < n ==> valid_segment(#[trigger] path[i]),
        n < path.len() ==> !valid_segment(path[n as int]),
    ensures
        first_invalid(path) == n,
{
    lemma_first_invalid(path);
    if first_invalid(path) < n {
        assert(valid_segment(path[first_invalid(path) as int]));
    }
}

/// The segments of a path text are valid ones.
pub proof fn lemma_pieces_valid(s: Seq<char>)
    ensures
        forall|i: int|
            0 <= i < crate::text::nonempty_pieces(s, '/').len() ==> valid_segment(
                #[trigger] crate::text::nonempty_pieces(s, '/')[i],
            ),
{
    let keep = |piece: Seq<char>| piece.len() > 0;
    let all = crate::text::split_at_each(s, '/');
    crate::text::lemma_pieces_hold_no_separator(s, '/');
    assert forall|i: int| 0 <= i < all.filter(keep).len() implies valid_segment(
        #[trigger] all.filter(keep)[i],
    ) by {
        let piece = all.filter(keep)[i];
        all.lemma_filter_contains_rev(keep, piece);
        let k = choose|k: int| 0 <= k < all.len() && all[k] == piece;
        assert(!all[k].contains('/'));
    }
}

/// Whether `s` is a valid path segment.
fn is_valid_segment(s: &str) -> (yes: bool)
    ensures
        yes == valid_segment(s@),
{
    !s.is_empty() && !has_char(s, '/')
}

/// Whether two lists hold the same texts.
fn same_texts(a: &Vec<String>, b: &Vec<String>) -> (same: bool)
    ensures
        same == (crate::text::texts(a@) == crate::text::texts(b@)),
{
    if a.len() != b.len() {
        return false;
    }
    let mut i: usize = 0;
    while i < a.len()
        invariant
            i <= a.len(),
            a.len() == b.len(),
            forall|k: int| 0 <= k < i ==> crate::text::texts(a@)[k] == crate::text::texts(b@)[k],
        decreases a.len() - i,
    {
        if !same_text(a[i].as_str(), b[i].as_str()) {
            assert(crate::text::texts(a@)[i as int] != crate::text::texts(b@)[i as int]);
            return false;
        }
        i = i + 1;
    }
    assert(crate::text::texts(a@) =~= crate::text::texts(b@));
    true
}

/// A list with the same texts.
pub(crate) fn copy_texts(list: &Vec<String>) -> (copy: Vec<String>)
    ensures
        crate::text::texts(copy@) == crate::text::texts(list@),
{
    let mut copy: Vec<String> = Vec::new();
    let mut i: usize = 0;
    while i < list.len()
        invariant
            i <= list.len(),
            copy@.len() == i,
            forall|k: int| 0 <= k < i ==> copy@[k]@ == list@[k]@,
        decreases list.len() - i,
    {
        copy.push(list[i].clone());
        i = i + 1;
    }
    assert(crate::text::texts(copy@) =~= crate::text::texts(list@));
    copy
}

impl Clone for ActorPath {
    fn clone(&self) -> (copy: Self)
        ensures
            copy@ == self@,
    {
        ActorPath { segments: copy_texts(&self.segments) }
    }
}

impl Clone for ActorAddress {
    fn clone(&self) -> (copy: Self)
        ensures
            copy@ == self@,
    {
        ActorAddress { node_id: self.node_id.clone(), path: self.path.clone() }
    }
}

impl PartialEq for ActorPath {
    fn eq(&self, other: &Self) -> (same: bool) {
        same_texts(&self.segments, &other.segments)
    }
}

impl vstd::std_specs::cmp::PartialEqSpecImpl for ActorPath {
    open spec fn obeys_eq_spec() -> bool {
        true
    }

    open spec fn eq_spec(&self, other: &Self) -> bool {
        self@ == other@
    }
}

impl Eq for ActorPath {

}

impl PartialEq for ActorAddress {
    fn eq(&self, other: &Self) -> (same: bool) {
        same_text(self.node_id.as_str(), other.node_id.as_str()) && same_texts(
            &self.path.segments,
            &other.path.segments,
        )
    }
}

impl vstd::std_specs::cmp::PartialEqSpecImpl for ActorAddress {
    open spec fn obeys_eq_spec() -> bool {
        true
    }

    open spec fn eq_spec(&self, other: &Self) -> bool {
        self@ == other@
    }
}

impl Eq for ActorAddress {

}

impl AddressError {
    /// The message of each error.
    pub open spec fn message(fault: AddressFault) -> Seq<char> {
        match fault {
            AddressFault::InvalidFormat(s) => "Invalid address format: "@ + s,
            AddressFault::EmptyNodeId => "Empty node ID"@,
            AddressFault::EmptyPath => "Empty actor path"@,
            AddressFault::InvalidPathSegment(s) => "Invalid path segment: "@ + s,
        }
    }

    /// The message of this error.
    pub fn to_string(&self) -> (text: String)
        ensures
            text@ == AddressError::message(self@),
    {
        match self {
            AddressError::InvalidFormat(s) => "Invalid address format: ".to_owned().concat(
                s.as_str(),
            ),
            AddressError::EmptyNodeId => "Empty node ID".to_owned(),
            AddressError::EmptyPath => "Empty actor path".to_owned(),
            AddressError::InvalidPathSegment(s) => "Invalid path segment: ".to_owned().concat(
                s.as_str(),
            ),
        }
    }
}

impl ActorPath {
    /// Create a path from segments.
    pub fn new(segments: Vec<String>) -> (res: Result<Self, AddressError>)
        ensures
            path_result(res) == checked_path(crate::text::texts(segments@)),
    {
        let ghost path = crate::text::texts(segments@);
        if segments.is_empty() {
            return Err(AddressError::EmptyPath);
        }
        let mut i: usize = 0;
        while i < segments.len()
            invariant
                i <= segments.len(),
                path == crate::text::texts(segments@),
                forall|k: int| 0 <= k < i ==> valid_segment(#[trigger] path[k]),
            decreases segments.len() - i,
        {
            if !is_valid_segment(segments[i].as_str()) {
                proof {
                    lemma_first_invalid_is(path, i as nat);
                }
                return Err(AddressError::InvalidPathSegment(segments[i].clone()));
            }
            assert(path[i as int] == segments@[i as int]@);
            i = i + 1;
        }
        proof {
            lemma_first_invalid_is(path, i as nat);
        }
        Ok(ActorPath { segments })
    }

    /// Create a path with a single segment.
    pub fn root(name: &str) -> (res: Result<Self, AddressError>)
        ensures
            path_result(res) == checked_path(seq![name@]),
    {
        let mut segments: Vec<String> = Vec::new();
        segments.push(name.to_owned());
        assert(crate::text::texts(segments@) =~= seq![name@]);
        ActorPath::new(segments)
    }

    /// Create a path under `/user/`.
    pub fn user(name: &str) -> (res: Result<Self, AddressError>)
        ensures
            path_result(res) == checked_path(seq!["user"@, name@]),
    {
        let mut segments: Vec<String> = Vec::new();
        segments.push("user".to_owned());
        segments.push(name.to_owned());
        assert(crate::text::texts(segments@) =~= seq!["user"@, name@]);
        ActorPath::new(segments)
    }

    /// Create a path under `/system/`.
    pub fn system(name: &str) -> (res: Result<Self, AddressError>)
        ensures
            path_result(res) == checked_path(seq!["system"@, name@]),
    {
        let mut segments: Vec<String> = Vec::new();
        segments.push("system".to_owned());
        segments.push(name.to_owned());
        assert(crate::text::texts(segments@) =~= seq!["system"@, name@]);
        ActorPath::new(segments)
    }

    /// The path one segment up. There is none above a single segment, nor
    /// where what remains is not a valid path.
    pub open spec fn parent_path(path: Seq<Seq<char>>) -> Option<Seq<Seq<char>>> {
        if path.len() > 1 && valid_path(path.drop_last()) {
            Some(path.drop_last())
        } else {
            None
        }
    }

    /// Get the parent path (without the last segment).
    pub fn parent(&self) -> (res: Option<ActorPath>)
        ensures
            match res {
                Some(p) => ActorPath::parent_path(self@) == Some(p@),
                None => ActorPath::parent_path(self@) is None,
            },
    {
        if self.segments.len() <= 1 {
            return None;
        }
        let mut above: Vec<String> = copy_texts(&self.segments);
        let ghost whole = above@;
        let _ = above.pop();
        proof {
            assert(crate::text::texts(above@) =~= crate::text::texts(whole).drop_last());
            lemma_first_invalid(self@.drop_last());
        }
        match ActorPath::new(above) {
            Ok(path) => Some(path),
            Err(_) => None,
        }
    }

    /// What appending a segment to a path gives: the fault of the new segment
    /// comes first, then any that the path had before.
    pub open spec fn child_path(path: Seq<Seq<char>>, segment: Seq<char>) -> Result<
        Seq<Seq<char>>,
        AddressFault,
    > {
        if !valid_segment(segment) {
            Err(AddressFault::InvalidPathSegment(segment))
        } else {
            checked_path(path.push(segment))
        }
    }

    /// Create a child path by appending a segment.
    pub fn child(&self, segment: &str) -> (res: Result<ActorPath, AddressError>)
        ensures
            path_result(res) == ActorPath::child_path(self@, segment@),
    {
        if !is_valid_segment(segment) {
            return Err(AddressError::InvalidPathSegment(segment.to_owned()));
        }
        let mut below: Vec<String> = copy_texts(&self.segments);
        let ghost above = below@;
        below.push(segment.to_owned());
        assert(crate::text::texts(below@) =~= crate::text::texts(above).push(segment@));
        ActorPath::new(below)
    }

    /// Get the actor name (last segment).
    pub fn name(&self) -> (res: Option<&str>)
        ensures
            match res {
                Some(name) => self@.len() > 0 && name@ == self@.last(),
                None => self@.len() == 0,
            },
    {
        let n: usize = self.segments.len();
        if n == 0 {
            None
        } else {
            Some(self.segments[n - 1].as_str())
        }
    }

    /// Whether a path stands under the given first segment.
    pub open spec fn stands_under(path: Seq<Seq<char>>, first: Seq<char>) -> bool {
        path.len() > 0 && path[0] == first
    }

    /// Check if this is a system path.
    pub fn is_system(&self) -> (yes: bool)
        ensures
            yes == ActorPath::stands_under(self@, "system"@),
    {
        self.segments.len() > 0 && same_text(self.segments[0].as_str(), "system")
    }

    /// Check if this is a user path.
    pub fn is_user(&self) -> (yes: bool)
        ensures
            yes == ActorPath::stands_under(self@, "user"@),
    {
        self.segments.len() > 0 && same_text(self.segments[0].as_str(), "user")
    }

    /// The text of this path.
    pub fn to_string(&self) -> (text: String)
        ensures
            text@ == path_text(self@),
    {
        if self.segments.len() == 0 {
            let slash: String = "/".to_owned();
            proof {
                reveal_strlit("/");
                assert(slash@ =~= seq!['/']);
            }
            return slash;
        }
        let mut text: String = String::new();
        let mut i: usize = 0;
        assert(self@.take(0) =~= Seq::empty());
        while i < self.segments.len()
            invariant
                i <= self.segments.len(),
                text@ == slashed(self@.take(i as int)),
            decreases self.segments.len() - i,
        {
            proof {
                reveal_strlit("/");
                assert(self@.take(i + 1).drop_last() =~= self@.take(i as int));
            }
            text.append("/");
            assert(text@ =~= slashed(self@.take(i as int)).push('/'));
            text.append(self.segments[i].as_str());
            i = i + 1;
        }
        assert(self@.take(i as int) =~= self@);
        text
    }

    /// Read a path text.
    pub fn from_str(s: &str) -> (res: Result<ActorPath, AddressError>)
        ensures
            path_result(res) == parsed_path(s@),
    {
        proof {
            reveal_strlit("/");
            if s@.len() > 0 {
                assert(s@.take(1) =~= seq![s@[0]]);
            }
            assert("/"@ =~= seq!['/']);
            if crate::text::opens_with(s@, "/"@) {
                assert(s@.take(1)[0] == '/');
            }
            if s@.len() > 0 && s@[0] == '/' {
                assert(s@.take(1) =~= "/"@);
            }
        }
        if !starts_with(s, "/") {
            return Err(
                AddressError::InvalidFormat("Path must start with '/': ".to_owned().concat(s)),
            );
        }
        let n: usize = s.unicode_len();
        let rest: &str = s.substring_char(1, n);
        assert(rest@ =~= s@.skip(1));
        let segments: Vec<String> = cut_nonempty(rest, '/');
        proof {
            lemma_pieces_valid(rest@);
            lemma_first_invalid(crate::text::texts(segments@));
        }
        ActorPath::new(segments)
    }
}

impl ActorAddress {
    /// Create an address. The node must not be empty.
    pub fn new(node_id: &str, path: ActorPath) -> (res: Result<Self, AddressError>)
        ensures
            address_result(res) == if node_id@.len() == 0 {
                Err::<AddressView, AddressFault>(AddressFault::EmptyNodeId)
            } else {
                Ok(AddressView { node_id: node_id@, path: path@ })
            },
    {
        if node_id.is_empty() {
            return Err(AddressError::EmptyNodeId);
        }
        Ok(ActorAddress { node_id: node_id.to_owned(), path })
    }

    /// Create an address on the local node.
    pub fn local(path: ActorPath) -> (res: Self)
        ensures
            res@ == (AddressView { node_id: "localhost"@, path: path@ }),
    {
        ActorAddress { node_id: "localhost".to_owned(), path }
    }

    /// Check if this address points to a local actor, where `node_var` is the
    /// value of the `NODE_ID` environment variable, if it has one.
    pub fn is_local(&self, node_var: Option<&str>) -> (yes: bool)
        ensures
            yes == (self@.node_id == "localhost"@ || self@.node_id == match node_var {
                Some(id) => id@,
                None => Seq::<char>::empty(),
            }),
    {
        if same_text(self.node_id.as_str(), "localhost") {
            return true;
        }
        match node_var {
            Some(id) => same_text(self.node_id.as_str(), id),
            None => {
                let empty: bool = self.node_id.as_str().is_empty();
                proof {
                    if empty {
                        assert(self.node_id@ =~= Seq::empty());
                    }
                }
                empty
            },
        }
    }

    /// Get the parent address (without the last path segment).
    pub fn parent(&self) -> (res: Option<ActorAddress>)
        ensures
            match res {
                Some(a) => a@.node_id == self@.node_id && ActorPath::parent_path(self@.path)
                    == Some(a@.path),
                None => ActorPath::parent_path(self@.path) is None,
            },
    {
        match self.path.parent() {
            Some(path) => Some(ActorAddress { node_id: self.node_id.clone(), path }),
            None => None,
        }
    }

    /// `a` is the address of a child of the actor at `own`.
    pub open spec fn stands_below(a: AddressView, own: AddressView) -> bool {
        &&& a.node_id == own.node_id
        &&& a.path.len() > 0
        &&& a.path.drop_last() == own.path
    }

    /// Whether this is the address of a child of the actor at `own`.
    pub fn is_child_of(&self, own: &ActorAddress) -> (yes: bool)
        ensures
            yes == ActorAddress::stands_below(self@, own@),
    {
        let n: usize = own.path.segments.len();
        if self.node_id != own.node_id || self.path.segments.len() == 0
            || self.path.segments.len() - 1 != n {
            return false;
        }
        let mut i: usize = 0;
        while i < n
            invariant
                n == own.path.segments@.len(),
                self.path.segments@.len() == n + 1,
                i <= n,
                forall|k: int| 0 <= k < i ==> self@.path[k] == #[trigger] own@.path[k],
            decreases n - i,
        {
            if !same_text(self.path.segments[i].as_str(), own.path.segments[i].as_str()) {
                assert(self@.path.drop_last()[i as int] != own@.path[i as int]);
                return false;
            }
            i = i + 1;
        }
        assert(self@.path.drop_last() =~= own@.path);
        true
    }

    /// What appending a segment to an address gives.
    pub open spec fn child_address(a: AddressView, segment: Seq<char>) -> Result<
        AddressView,
        AddressFault,
    > {
        match ActorPath::child_path(a.path, segment) {
            Ok(path) => Ok(AddressView { node_id: a.node_id, path }),
            Err(fault) => Err(fault),
        }
    }

    /// Create a child address by appending a segment.
    pub fn child(&self, segment: &str) -> (res: Result<ActorAddress, AddressError>)
        ensures
            address_result(res) == ActorAddress::child_address(self@, segment@),
    {
        match self.path.child(segment) {
            Ok(path) => Ok(ActorAddress { node_id: self.node_id.clone(), path }),
            Err(e) => Err(e),
        }
    }

    /// Get the actor name (last path segment).
    pub fn name(&self) -> (res: Option<&str>)
        ensures
            match res {
                Some(name) => self@.path.len() > 0 && name@ == self@.path.last(),
                None => self@.path.len() == 0,
            },
    {
        self.path.name()
    }

    /// The text of this address.
    pub fn to_string(&self) -> (text: String)
        ensures
            text@ == address_text(self@),
    {
        let path: String = self.path.to_string();
        "actor://".to_owned().concat(self.node_id.as_str()).concat(path.as_str())
    }

    /// Read an address text.
    pub fn from_str(s: &str) -> (res: Result<ActorAddress, AddressError>)
        ensures
            address_result(res) == parsed_address(s@),
    {
        if !starts_with(s, "actor://") {
            return Err(
                AddressError::InvalidFormat(
                    "Address must start with 'actor://': ".to_owned().concat(s),
                ),
            );
        }
        proof {
            reveal_strlit("actor://");
        }
        let n: usize = s.unicode_len();
        let rest: &str = s.substring_char(8, n);
        assert(rest@ =~= s@.skip(8));
        let at: usize = find_char(rest, '/');
        proof {
            crate::text::lemma_first_position(rest@, '/');
        }
        let m: usize = rest.unicode_len();
        if at == m {
            return Err(
                AddressError::InvalidFormat(
                    "Invalid format, expected 'actor://node_id/path': ".to_owned().concat(s),
                ),
            );
        }
        let node_id: &str = rest.substring_char(0, at);
        let path_str: &str = rest.substring_char(at, m);
        assert(node_id@ =~= rest@.take(at as int));
        assert(path_str@ =~= rest@.skip(at as int));
        match ActorPath::from_str(path_str) {
            Ok(path) => ActorAddress::new(node_id, path),
            Err(e) => Err(e),
        }
    }
}

/// The text of a valid path, read without its leading slash, gives the segments
/// back.
proof fn lemma_slashed_pieces(path: Seq<Seq<char>>)
    requires
        valid_path(path),
    ensures
        slashed(path).len() > 0,
        slashed(path)[0] == '/',
        crate::text::split_at_each(slashed(path).skip(1), '/') == path,
    decreases path.len(),
{
    let last = path.last();
    let front = path.drop_last();
    assert(valid_segment(path[path.len() - 1]));
    if front.len() == 0 {
        assert(slashed(front) =~= Seq::empty());
        assert(slashed(path) =~= seq!['/'] + last);
        assert(slashed(path).skip(1) =~= last);
        crate::text::lemma_split_whole(last, '/');
        assert(path =~= seq![last]);
    } else {
        assert forall|i: int| 0 <= i < front.len() implies valid_segment(#[trigger] front[i]) by {
            assert(front[i] == path[i]);
        }
        lemma_slashed_pieces(front);
        let head = slashed(front).skip(1);
        assert(slashed(path).skip(1) =~= head.push('/') + last);
        crate::text::lemma_split_snoc(head, '/', last);
        assert(path =~= front.push(last));
    }
}

/// A sequence whose items all pass a filter is left as it is.
proof fn lemma_filter_all<T>(s: Seq<T>, keep: spec_fn(T) -> bool)
    requires
        forall|i: int| 0 <= i < s.len() ==> keep(#[trigger] s[i]),
    ensures
        s.filter(keep) == s,
    decreases s.len(),
{
    reveal(Seq::filter);
    if s.len() > 0 {
        let front = s.drop_last();
        assert forall|i: int| 0 <= i < front.len() implies keep(#[trigger] front[i]) by {
            assert(front[i] == s[i]);
        }
        lemma_filter_all(front, keep);
        assert(keep(s[s.len() - 1]));
        assert(front.push(s.last()) =~= s);
    } else {
        assert(s.filter(keep) =~= s);
    }
}

/// A list of segments makes a path exactly when it is a valid path, and then
/// the path holds those segments.
pub proof fn law_new_accepts_valid_paths(path: Seq<Seq<char>>)
    ensures
        checked_path(path) is Ok <==> valid_path(path),
        checked_path(path) matches Ok(p) ==> p == path,
{
    lemma_first_invalid(path);
}

/// Reading the text of a valid path gives the path back.
pub proof fn law_path_text_reads_back(path: Seq<Seq<char>>)
    requires
        valid_path(path),
    ensures
        parsed_path(path_text(path)) == Ok::<Seq<Seq<char>>, AddressFault>(path),
{
    lemma_slashed_pieces(path);
    assert forall|i: int| 0 <= i < path.len() implies (#[trigger] path[i]).len() > 0 by {
        assert(valid_segment(path[i]));
    }
    lemma_filter_all(path, |piece: Seq<char>| piece.len() > 0);
}

/// What a path text reads as is a valid path.
pub proof fn law_parsed_path_is_valid(s: Seq<char>)
    ensures
        parsed_path(s) matches Ok(path) ==> valid_path(path),
{
    lemma_pieces_valid(s.skip(1));
}

/// Reading the text of an address gives the address back, if its path is valid
/// and its node is a non-empty text without `/`.
pub proof fn law_address_text_reads_back(a: AddressView)
    requires
        valid_path(a.path),
        a.node_id.len() > 0,
        !a.node_id.contains('/'),
    ensures
        parsed_address(address_text(a)) == Ok::<AddressView, AddressFault>(a),
{
    reveal_strlit("actor://");
    let s = address_text(a);
    let rest = s.skip(8);
    let tail = path_text(a.path);
    lemma_slashed_pieces(a.path);
    law_path_text_reads_back(a.path);
    assert(s.take(8) =~= "actor://"@);
    assert(rest =~= a.node_id + tail);
    let at = a.node_id.len();
    assert forall|i: int| 0 <= i < at implies rest[i] != '/' by {
        assert(rest[i] == a.node_id[i]);
        assert(a.node_id.contains(a.node_id[i]));
    }
    assert(rest[at as int] == tail[0]);
    crate::text::lemma_first_position_is(rest, '/', at);
    assert(rest.skip(at as int) =~= tail);
    assert(rest.take(at as int) =~= a.node_id);
}

/// What an address text reads as has a valid path and a non-empty node without
/// `/`, so that its own text reads as the same address.
pub proof fn law_parsed_address_is_valid(s: Seq<char>)
    ensures
        parsed_address(s) matches Ok(a) ==> {
            &&& valid_path(a.path)
            &&& a.node_id.len() > 0
            &&& !a.node_id.contains('/')
            &&& parsed_address(address_text(a)) == Ok::<AddressView, AddressFault>(a)
        },
{
    if let Ok(a) = parsed_address(s) {
        let rest = s.skip(8);
        let at = crate::text::first_position(rest, '/') as int;
        crate::text::lemma_first_position(rest, '/');
        law_parsed_path_is_valid(rest.skip(at));
        if a.node_id.contains('/') {
            let i = choose|i: int| 0 <= i < a.node_id.len() && a.node_id[i] == '/';
            assert(rest[i] == '/');
        }
        law_address_text_reads_back(a);
    }
}

/// Addresses that read back are told apart by their texts.
pub proof fn law_address_texts_are_distinct(a: AddressView, b: AddressView)
    requires
        valid_path(a.path),
        a.node_id.len() > 0,
        !a.node_id.contains('/'),
        valid_path(b.path),
        b.node_id.len() > 0,
        !b.node_id.contains('/'),
        address_text(a) == address_text(b),
    ensures
        a == b,
{
    law_address_text_reads_back(a);
    law_address_text_reads_back(b);
}

/// A child of a valid path is named by its segment, and its parent is the path
/// that it was made from.
pub proof fn law_child_then_parent(path: Seq<Seq<char>>, segment: Seq<char>)
    requires
        valid_path(path),
    ensures
        ActorPath::child_path(path, segment) is Ok <==> valid_segment(segment),
        ActorPath::child_path(path, segment) matches Ok(child) ==> {
            &&& valid_path(child)
            &&& child.last() == segment
            &&& ActorPath::parent_path(child) == Some(path)
        },
{
    let child = path.push(segment);
    assert(child.drop_last() =~= path);
    if valid_segment(segment) {
        assert forall|i: int| 0 <= i < child.len() implies valid_segment(#[trigger] child[i]) by {
            if i < path.len() {
                assert(child[i] == path[i]);
            }
        }
        lemma_first_invalid(child);
    }
}

/// A child stands under the same first segment as its parent.
pub proof fn law_child_keeps_first_segment(
    path: Seq<Seq<char>>,
    segment: Seq<char>,
    first: Seq<char>,
)
    requires
        path.len() > 0,
    ensures
        ActorPath::child_path(path, segment) matches Ok(child) ==> ActorPath::stands_under(
            child,
            first,
        ) == ActorPath::stands_under(path, first),
{
}

/// No path is both a user path and a system path.
pub proof fn law_user_and_system_are_apart(path: Seq<Seq<char>>)
    ensures
        !(ActorPath::stands_under(path, "user"@) && ActorPath::stands_under(path, "system"@)),
{
    reveal_strlit("user");
    reveal_strlit("system");
    assert("user"@.len() != "system"@.len());
}

/// A list of segments makes a path if and only if there is a segment and each is
/// a text that is not empty and holds no `/`. The path holds those segments, and
/// an error names the first one that is at fault.
pub proof fn law_paths_are_made_of_proper_segments(
    segments: Vec<String>,
    res: Result<ActorPath, AddressError>,
)
    requires
        call_ensures(ActorPath::new, (segments,), res),
    ensures
        res is Ok <==> segments@.len() > 0 && forall|i: int|
            0 <= i < segments@.len() ==> (#[trigger] segments@[i])@.len() > 0
                && !segments@[i]@.contains('/'),
        res matches Ok(path) ==> path@.len() == segments@.len() && forall|i: int|
            0 <= i < segments@.len() ==> #[trigger] path@[i] == segments@[i]@,
        segments@.len() == 0 ==> (res matches Err(e) && e is EmptyPath),
        segments@.len() > 0 ==> (res matches Err(e) ==> exists|k: int|
            0 <= k < segments@.len() && e@ == AddressFault::InvalidPathSegment(
                (#[trigger] segments@[k])@,
            ) && (segments@[k]@.len() == 0 || segments@[k]@.contains('/')) && forall|i: int|
                0 <= i < k ==> (#[trigger] segments@[i])@.len() > 0 && !segments@[i]@.contains(
                    '/',
                )),
{
    let path = crate::text::texts(segments@);
    lemma_first_invalid(path);
    let k = first_invalid(path) as int;
    assert forall|i: int| 0 <= i < segments@.len() implies path[i] == (
    #[trigger] segments@[i])@ by {
    }
    if k < path.len() {
        assert(!valid_segment(path[k]));
        assert(path[k] == segments@[k]@);
        assert forall|i: int| 0 <= i < k implies (#[trigger] segments@[i])@.len() > 0
            && !segments@[i]@.contains('/') by {
            assert(valid_segment(path[i]));
        }
    } else {
        assert forall|i: int| 0 <= i < segments@.len() implies (#[trigger] segments@[i])@.len() > 0
            && !segments@[i]@.contains('/') by {
            assert(valid_segment(path[i]));
        }
    }
}

/// A name makes a path of its own, a path of a user or one of the system if and
/// only if it is not empty and holds no `/`. Otherwise the error names it.
pub proof fn law_names_make_paths(name: &str, res: Result<ActorPath, AddressError>)
    requires
        call_ensures(ActorPath::root, (name,), res) || call_ensures(
            ActorPath::user,
            (name,),
            res,
        ) || call_ensures(ActorPath::system, (name,), res),
    ensures
        res is Ok <==> name@.len() > 0 && !name@.contains('/'),
        res matches Err(e) ==> e@ == AddressFault::InvalidPathSegment(name@),
        call_ensures(ActorPath::root, (name,), res) ==> (res matches Ok(path) ==> path@
            == seq![name@]),
        call_ensures(ActorPath::user, (name,), res) ==> (res matches Ok(path) ==> path@
            == seq!["user"@, name@]),
        call_ensures(ActorPath::system, (name,), res) ==> (res matches Ok(path) ==> path@
            == seq!["system"@, name@]),
{
    reveal_strlit("user");
    reveal_strlit("system");
    lemma_first_invalid(seq![name@]);
    lemma_first_invalid(seq!["user"@, name@]);
    lemma_first_invalid(seq!["system"@, name@]);
    assert(seq![name@][0] == name@);
    assert(seq!["user"@, name@][1] == name@);
    assert(seq!["system"@, name@][1] == name@);
    assert(valid_segment(seq!["user"@, name@][0]));
    assert(valid_segment(seq!["system"@, name@][0]));
}

/// The child of a path has one segment more, which must be a proper one, and the
/// parent has one less, of which there must be one left.
pub proof fn law_children_are_one_segment_below(
    path: &ActorPath,
    segment: &str,
    child: Result<ActorPath, AddressError>,
    parent: Option<ActorPath>,
    name: Option<&str>,
    yes: bool,
)
    requires
        forall|i: int|
            0 <= i < path@.len() ==> (#[trigger] path@[i]).len() > 0 && !path@[i].contains('/'),
    ensures
        call_ensures(ActorPath::child, (path, segment), child) ==> {
            &&& child is Ok <==> segment@.len() > 0 && !segment@.contains('/')
            &&& child matches Ok(below) ==> below@ == path@.push(segment@)
            &&& child matches Err(e) ==> e@ == AddressFault::InvalidPathSegment(segment@)
        },
        call_ensures(ActorPath::parent, (path,), parent) ==> {
            &&& parent is Some <==> path@.len() > 1
            &&& parent matches Some(above) ==> above@ == path@.drop_last()
        },
        call_ensures(ActorPath::name, (path,), name) ==> {
            &&& name is Some <==> path@.len() > 0
            &&& name matches Some(last) ==> last@ == path@[path@.len() - 1]
        },
        call_ensures(ActorPath::is_user, (path,), yes) ==> (yes <==> path@.len() > 0 && path@[0]
            == "user"@),
        call_ensures(ActorPath::is_system, (path,), yes) ==> (yes <==> path@.len() > 0 && path@[0]
            == "system"@),
{
    let below = path@.push(segment@);
    lemma_first_invalid(below);
    if segment@.len() > 0 && !segment@.contains('/') {
        assert forall|i: int| 0 <= i < below.len() implies valid_segment(#[trigger] below[i]) by {
            if i < path@.len() {
                assert(below[i] == path@[i]);
            }
        }
    }
    if path@.len() > 1 {
        let above = path@.drop_last();
        assert forall|i: int| 0 <= i < above.len() implies valid_segment(#[trigger] above[i]) by {
            assert(above[i] == path@[i]);
        }
    }
}

/// An address has the node and the path that it was made from. Only an empty
/// node is refused.
pub proof fn law_addresses_are_made_of_node_and_path(
    node_id: &str,
    path: ActorPath,
    res: Result<ActorAddress, AddressError>,
    local: ActorAddress,
)
    ensures
        call_ensures(ActorAddress::new, (node_id, path), res) ==> {
            &&& res is Ok <==> node_id@.len() > 0
            &&& res matches Ok(a) ==> a@.node_id == node_id@ && a@.path == path@
            &&& res matches Err(e) ==> e is EmptyNodeId
        },
        call_ensures(ActorAddress::local, (path,), local) ==> local@.node_id == "localhost"@
            && local@.path == path@,
{
}

/// The child, the parent and the name of an address are those of its path, on the
/// same node. One address is that of a child of another exactly when it is the
/// other with one segment behind it.
pub proof fn law_addresses_follow_their_paths(
    a: &ActorAddress,
    own: &ActorAddress,
    segment: &str,
    child: Result<ActorAddress, AddressError>,
    parent: Option<ActorAddress>,
    name: Option<&str>,
    yes: bool,
)
    requires
        forall|i: int|
            0 <= i < a@.path.len() ==> (#[trigger] a@.path[i]).len() > 0 && !a@.path[i].contains(
                '/',
            ),
    ensures
        call_ensures(ActorAddress::child, (a, segment), child) ==> {
            &&& child is Ok <==> segment@.len() > 0 && !segment@.contains('/')
            &&& child matches Ok(below) ==> below@.node_id == a@.node_id && below@.path
                == a@.path.push(segment@)
            &&& child matches Err(e) ==> e@ == AddressFault::InvalidPathSegment(segment@)
        },
        call_ensures(ActorAddress::parent, (a,), parent) ==> {
            &&& parent is Some <==> a@.path.len() > 1
            &&& parent matches Some(above) ==> above@.node_id == a@.node_id && above@.path
                == a@.path.drop_last()
        },
        call_ensures(ActorAddress::name, (a,), name) ==> {
            &&& name is Some <==> a@.path.len() > 0
            &&& name matches Some(last) ==> last@ == a@.path[a@.path.len() - 1]
        },
        call_ensures(ActorAddress::is_child_of, (a, own), yes) ==> (yes <==> a@.node_id
            == own@.node_id && exists|last: Seq<char>| a@.path == #[trigger] own@.path.push(last)),
{
    let below = a@.path.push(segment@);
    lemma_first_invalid(below);
    if segment@.len() > 0 && !segment@.contains('/') {
        assert forall|i: int| 0 <= i < below.len() implies valid_segment(#[trigger] below[i]) by {
            if i < a@.path.len() {
                assert(below[i] == a@.path[i]);
            }
        }
    }
    if a@.path.len() > 1 {
        let above = a@.path.drop_last();
        assert forall|i: int| 0 <= i < above.len() implies valid_segment(#[trigger] above[i]) by {
            assert(above[i] == a@.path[i]);
        }
    }
    if a@.path.len() > 0 && a@.path.drop_last() == own@.path {
        assert(a@.path =~= own@.path.push(a@.path.last()));
    }
    assert forall|last: Seq<char>| a@.path == #[trigger] own@.path.push(last) implies a@.path.len()
        > 0 && a@.path.drop_last() == own@.path by {
        assert(own@.path.push(last).drop_last() =~= own@.path);
    }
}

/// An address is a local one if its node is `localhost` or the node that the
/// environment names; where that names none, an empty node is local too.
pub proof fn law_local_addresses_are_on_this_node(
    a: &ActorAddress,
    node_var: Option<&str>,
    yes: bool,
)
    requires
        call_ensures(ActorAddress::is_local, (a, node_var), yes),
    ensures
        a@.node_id == "localhost"@ ==> yes,
        a@.node_id != "localhost"@ ==> (node_var matches Some(id) ==> (yes <==> a@.node_id == id@)),
        a@.node_id != "localhost"@ && node_var is None ==> (yes <==> a@.node_id.len() == 0),
{
    if a@.node_id.len() == 0 {
        assert(a@.node_id =~= Seq::<char>::empty());
    }
}

/// A copy of a path or an address has the same parts.
pub proof fn law_copies_of_addresses_have_the_same_parts(
    p: &ActorPath,
    q: ActorPath,
    a: &ActorAddress,
    b: ActorAddress,
)
    ensures
        call_ensures(<ActorPath as Clone>::clone, (p,), q) ==> q@ == p@,
        call_ensures(<ActorAddress as Clone>::clone, (a,), b) ==> b@.node_id == a@.node_id
            && b@.path == a@.path,
{
}

/// Paths and addresses are equal exactly when all their segments and their nodes
/// are.
pub proof fn law_equal_addresses_have_equal_parts(
    p: &ActorPath,
    q: &ActorPath,
    a: &ActorAddress,
    b: &ActorAddress,
)
    ensures
        vstd::std_specs::cmp::PartialEqSpec::eq_spec(p, q) <==> p.segments@.len()
            == q.segments@.len() && forall|i: int|
            0 <= i < p.segments@.len() ==> (#[trigger] p.segments@[i])@ == q.segments@[i]@,
        vstd::std_specs::cmp::PartialEqSpec::eq_spec(a, b) <==> a.node_id@ == b.node_id@
            && vstd::std_specs::cmp::PartialEqSpec::eq_spec(&a.path, &b.path),
        a@.node_id == a.node_id@,
        a@.path == a.path@,
{
    assert(p@.len() == p.segments@.len());
    assert(q@.len() == q.segments@.len());
    if p@ == q@ {
        assert forall|i: int| 0 <= i < p.segments@.len() implies (#[trigger] p.segments@[i])@
            == q.segments@[i]@ by {
            assert(p@[i] == q@[i]);
        }
    }
    if p.segments@.len() == q.segments@.len() && forall|i: int|
        0 <= i < p.segments@.len() ==> (#[trigger] p.segments@[i])@ == q.segments@[i]@ {
        assert(p@ =~= q@);
    }
}

/// The text of a path is a slash where it has no segment, and otherwise each
/// segment with a slash before it. The text of an address is `actor://`, its node
/// and the text of its path.
pub proof fn law_texts_of_addresses_are_built_up(
    path: &ActorPath,
    text: String,
    a: &ActorAddress,
    whole: String,
    front: Seq<Seq<char>>,
    segment: Seq<char>,
)
    ensures
        path_text(Seq::empty()) == seq!['/'],
        path_text(seq![segment]) == seq!['/'] + segment,
        front.len() > 0 ==> path_text(front.push(segment)) == path_text(front) + seq!['/']
            + segment,
        address_text(a@) == "actor://"@ + a@.node_id + path_text(a@.path),
        call_ensures(ActorPath::to_string, (path,), text) ==> text@ == path_text(path@),
        call_ensures(ActorAddress::to_string, (a,), whole) ==> whole@ == address_text(a@),
{
    assert(seq![segment].drop_last() =~= Seq::<Seq<char>>::empty());
    assert(front.push(segment).drop_last() =~= front);
    assert(slashed(Seq::empty()) =~= Seq::<char>::empty());
    assert(slashed(seq![segment]) =~= Seq::<char>::empty().push('/') + segment);
    assert(path_text(seq![segment]) =~= seq!['/'] + segment);
    if front.len() > 0 {
        assert(path_text(front.push(segment)) =~= path_text(front) + seq!['/'] + segment);
    }
}

/// A path text opens with a slash. What stands between slashes are its segments,
/// where nothing stands there is none, and there must be one. So what two texts
/// with a slash between them read as is what the first reads as and then what the
/// second does.
pub proof fn law_paths_are_read_segment_by_segment(s: Seq<char>, t: Seq<char>)
    ensures
        ({
            let head = seq!['/'] + s;
            let tail = seq!['/'] + t;
            let all = head + tail;
            &&& parsed_path(head) is Err && parsed_path(tail) is Err ==> parsed_path(all) == Err::<
                Seq<Seq<char>>,
                AddressFault,
            >(AddressFault::EmptyPath)
            &&& parsed_path(head) is Err && parsed_path(tail) is Ok ==> parsed_path(all)
                == parsed_path(tail)
            &&& parsed_path(head) is Ok && parsed_path(tail) is Err ==> parsed_path(all)
                == parsed_path(head)
            &&& parsed_path(head) is Ok && parsed_path(tail) is Ok ==> parsed_path(all) == Ok::<
                Seq<Seq<char>>,
                AddressFault,
            >(parsed_path(head)->Ok_0 + parsed_path(tail)->Ok_0)
            &&& !s.contains('/') && s.len() > 0 ==> parsed_path(head) == Ok::<
                Seq<Seq<char>>,
                AddressFault,
            >(seq![s])
            &&& s.len() == 0 ==> parsed_path(head) == Err::<Seq<Seq<char>>, AddressFault>(
                AddressFault::EmptyPath,
            )
        }),
        s.len() == 0 || s[0] != '/' ==> parsed_path(s) == Err::<Seq<Seq<char>>, AddressFault>(
            AddressFault::InvalidFormat("Path must start with '/': "@ + s),
        ),
{
    crate::text::law_pieces_are_those_of_the_parts(s, '/', t);
    let head = seq!['/'] + s;
    let tail = seq!['/'] + t;
    assert(head.skip(1) =~= s);
    assert(tail.skip(1) =~= t);
    assert((head + tail).skip(1) =~= s + seq!['/'] + t);
    let a = crate::text::nonempty_pieces(s, '/');
    let b = crate::text::nonempty_pieces(t, '/');
    if a.len() == 0 {
        assert(a + b =~= b);
    }
    if b.len() == 0 {
        assert(a + b =~= a);
    }
}

/// An address text is `actor://`, a node and a path text; the node is what stands
/// before the first slash. A text that does not begin so, or has no path, is told
/// so as a whole; otherwise a fault of the path comes before that of an empty
/// node.
pub proof fn law_addresses_are_read_part_by_part(node: Seq<char>, tail: Seq<char>)
    requires
        !node.contains('/'),
    ensures
        parsed_address("actor://"@ + node) == Err::<AddressView, AddressFault>(
            AddressFault::InvalidFormat(
                "Invalid format, expected 'actor://node_id/path': "@ + ("actor://"@ + node),
            ),
        ),
        tail.len() > 0 && tail[0] == '/' ==> {
            let whole = "actor://"@ + node + tail;
            &&& parsed_path(tail) matches Err(fault) ==> parsed_address(whole) == Err::<
                AddressView,
                AddressFault,
            >(fault)
            &&& parsed_path(tail) is Ok && node.len() == 0 ==> parsed_address(whole) == Err::<
                AddressView,
                AddressFault,
            >(AddressFault::EmptyNodeId)
            &&& parsed_path(tail) matches Ok(path) ==> (node.len() > 0 ==> parsed_address(whole)
                == Ok::<AddressView, AddressFault>((AddressView { node_id: node, path })))
        },
{
    reveal_strlit("actor://");
    let bare = "actor://"@ + node;
    assert(bare.take(8) =~= "actor://"@);
    assert(bare.skip(8) =~= node);
    crate::text::lemma_first_position(node, '/');
    if tail.len() > 0 && tail[0] == '/' {
        let whole = "actor://"@ + node + tail;
        let rest = whole.skip(8);
        assert(whole.take(8) =~= "actor://"@);
        assert(rest =~= node + tail);
        assert forall|i: int| 0 <= i < node.len() implies rest[i] != '/' by {
            assert(rest[i] == node[i]);
            assert(node.contains(node[i]));
        }
        assert(rest[node.len() as int] == '/');
        crate::text::lemma_first_position_is(rest, '/', node.len());
        assert(rest.take(node.len() as int) =~= node);
        assert(rest.skip(node.len() as int) =~= tail);
    }
}

/// A text that does not begin with `actor://` is no address.
pub proof fn law_addresses_begin_with_their_scheme(s: Seq<char>)
    requires
        forall|rest: Seq<char>| s != #[trigger] ("actor://"@ + rest),
    ensures
        parsed_address(s) == Err::<AddressView, AddressFault>(
            AddressFault::InvalidFormat("Address must start with 'actor://': "@ + s),
        ),
{
    if crate::text::opens_with(s, "actor://"@) {
        let rest = s.skip("actor://"@.len() as int);
        assert(s =~= "actor://"@ + rest);
    }
}

/// Reading a text gives what the text reads as, or its fault.
pub proof fn law_readers_give_what_is_read(
    s: &str,
    path: Result<ActorPath, AddressError>,
    address: Result<ActorAddress, AddressError>,
    e: &AddressError,
    text: String,
)
    ensures
        call_ensures(ActorPath::from_str, (s,), path) ==> {
            &&& path matches Ok(p) ==> parsed_path(s@) == Ok::<Seq<Seq<char>>, AddressFault>(p@)
            &&& path matches Err(e) ==> parsed_path(s@) == Err::<Seq<Seq<char>>, AddressFault>(e@)
        },
        call_ensures(ActorAddress::from_str, (s,), address) ==> {
            &&& address matches Ok(a) ==> parsed_address(s@) == Ok::<AddressView, AddressFault>(a@)
            &&& address matches Err(e) ==> parsed_address(s@) == Err::<AddressView, AddressFault>(
                e@,
            )
        },
        call_ensures(AddressError::to_string, (e,), text) ==> match e {
            AddressError::InvalidFormat(t) => text@ == "Invalid address format: "@ + t@,
            AddressError::EmptyNodeId => text@ == "Empty node ID"@,
            AddressError::EmptyPath => text@ == "Empty actor path"@,
            AddressError::InvalidPathSegment(t) => text@ == "Invalid path segment: "@ + t@,
        },
{
}

/// A path that holds an improper segment has no proper child, and has a parent
/// only where that segment is its last one.
pub proof fn law_improper_paths_have_no_children(
    path: &ActorPath,
    segment: &str,
    k: int,
    child: Result<ActorPath, AddressError>,
    parent: Option<ActorPath>,
)
    requires
        0 <= k < path@.len(),
        path@[k].len() == 0 || path@[k].contains('/'),
        forall|i: int|
            0 <= i < k ==> (#[trigger] path@[i]).len() > 0 && !path@[i].contains('/'),
    ensures
        call_ensures(ActorPath::child, (path, segment), child) ==> {
            &&& segment@.len() == 0 || segment@.contains('/') ==> (child matches Err(e) && e@
                == AddressFault::InvalidPathSegment(segment@))
            &&& segment@.len() > 0 && !segment@.contains('/') ==> (child matches Err(e) && e@
                == AddressFault::InvalidPathSegment(path@[k]))
        },
        call_ensures(ActorPath::parent, (path,), parent) ==> {
            &&& parent is Some <==> k == path@.len() - 1 && k > 0
            &&& parent matches Some(above) ==> above@ == path@.drop_last()
        },
{
    let below = path@.push(segment@);
    assert forall|i: int| 0 <= i < k implies valid_segment(#[trigger] below[i]) by {
        assert(below[i] == path@[i]);
    }
    lemma_first_invalid_is(below, k as nat);
    let above = path@.drop_last();
    if k < above.len() {
        assert(!valid_segment(above[k]));
    } else {
        assert forall|i: int| 0 <= i < above.len() implies valid_segment(#[trigger] above[i]) by {
            assert(above[i] == path@[i]);
        }
    }
}

} // verus!
