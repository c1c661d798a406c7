//! Identities on the network: opaque byte strings of at most 29 bytes.

use crate::bytes::zeroed;
use vstd::prelude::*;
use vstd::std_specs::cmp::PartialEqSpecImpl;

verus! {

/// The most bytes an identity can have.
pub const MAX_PRINCIPAL_LENGTH: usize = 29;

/// The textual form of an identity: its bytes behind their CRC-32 checksum,
/// in lower-case base 32 without padding, in groups of five characters
/// joined by hyphens.
pub uninterp spec fn principal_text(bytes: Seq<u8>) -> Seq<char>;

/// The textual form of the identity with the given bytes, as
/// `candid::Principal::to_text` writes it for the principal that
/// `candid::Principal::from_slice` makes of them.
#[verifier::external_body]
fn text_of_bytes(bytes: &[u8]) -> (text: String)
    requires
        bytes@.len() <= MAX_PRINCIPAL_LENGTH,
    ensures
        text@ == principal_text(bytes@),
{
    candid::Principal::from_slice(bytes).to_text()
}

/// The bytes of the identity that a text denotes, or `None` for a text that
/// denotes none: the text is read without regard to case, must be the
/// base 32 form of a checksum and at most 29 bytes, and must be grouped as
/// the textual form of those bytes is.
pub uninterp spec fn principal_bytes_of_text(text: Seq<char>) -> Option<Seq<u8>>;

/// The bytes of the identity that `text` denotes, as
/// `candid::Principal::from_text` reads it, which refuses a text that
/// would give more than 29 bytes.
#[verifier::external_body]
fn bytes_of_text(text: &str) -> (bytes: Option<Vec<u8>>)
    ensures
        match principal_bytes_of_text(text@) {
            Some(denoted) => bytes matches Some(read) && read@ == denoted,
            None => bytes is None,
        },
        bytes matches Some(read) ==> read@.len() <= MAX_PRINCIPAL_LENGTH,
{
    candid::Principal::from_text(text).ok().map(|principal| principal.as_slice().to_vec())
}

/// The identity of a canister or a user.
///
/// Holds what the network's principal type holds: the number of bytes and a
/// buffer of 29 bytes, zero behind the last byte in use, so that two
/// identities are equal exactly when their bytes are.
#[derive(Debug, Clone, Copy, Eq, Hash)]
pub struct PrincipalId {
    len: u8,
    bytes: [u8; 29],
}

impl View for PrincipalId {
    type V = Seq<u8>;

    closed spec fn view(&self) -> Seq<u8> {
        self.bytes@.take(self.len as int)
    }
}

/// The identity whose bytes are `bytes`, for at most 29 bytes.
pub closed spec fn principal_of(bytes: Seq<u8>) -> PrincipalId {
    choose|id: PrincipalId| id.well_formed() && id@ == bytes
}

impl PartialEq for PrincipalId {
    fn eq(&self, other: &PrincipalId) -> (equal: bool) {
        proof {
            use_type_invariant(self);
            use_type_invariant(other);
        }
        if self.len != other.len {
            return false;
        }
        let mut i: usize = 0;
        while i < self.len as usize
            invariant
                i <= self.len <= 29,
                self.len == other.len,
                forall|j: int| 0 <= j < i ==> self.bytes[j] == other.bytes[j],
            decreases self.len - i,
        {
            if self.bytes[i] != other.bytes[i] {
                return false;
            }
            i = i + 1;
        }
        proof {
            assert(self@ =~= other@);
            lemma_principal_by_bytes(*self, *other);
        }
        true
    }
}

impl PartialEqSpecImpl for PrincipalId {
    open spec fn obeys_eq_spec() -> bool {
        true
    }

    open spec fn eq_spec(&self, other: &PrincipalId) -> bool {
        *self == *other
    }
}

impl PrincipalId {
    /// Validity: at most 29 bytes are in use, and the rest are zero.
    #[verifier::type_invariant]
    pub closed spec fn well_formed(&self) -> bool {
        &&& self.len <= 29
        &&& forall|i: int| self.len <= i < 29 ==> self.bytes[i] == 0
    }

    /// The identity with no bytes, which names the management canister.
    pub fn management_canister() -> (id: PrincipalId)
        ensures
            id@ == Seq::<u8>::empty(),
            id.well_formed(),
    {
        PrincipalId { len: 0, bytes: zeroed::<29>() }
    }

    /// The identity with the given bytes, or `None` for more than 29 bytes.
    pub fn from_slice(bytes: &[u8]) -> (id: Option<PrincipalId>)
        ensures
            bytes@.len() <= MAX_PRINCIPAL_LENGTH <==> id is Some,
            id matches Some(p) ==> p@ == bytes@ && p.well_formed() && p == principal_of(bytes@),
    {
        if bytes.len() > 29 {
            return None;
        }
        let mut buffer = zeroed::<29>();
        let mut i: usize = 0;
        while i < bytes.len()
            invariant
                i <= bytes.len() <= 29,
                forall|j: int| 0 <= j < i ==> buffer[j] == bytes[j],
                forall|j: int| i <= j < 29 ==> buffer[j] == 0,
            decreases bytes.len() - i,
        {
            buffer[i] = bytes[i];
            i = i + 1;
        }
        let id = PrincipalId { len: bytes.len() as u8, bytes: buffer };
        proof {
            assert(id@ =~= bytes@);
            lemma_principal_by_bytes(id, principal_of(bytes@));
        }
        Some(id)
    }

    /// The identity that `text` denotes, or `None` for a text that denotes
    /// none.
    pub fn from_text(text: &str) -> (id: Option<PrincipalId>)
        ensures
            match principal_bytes_of_text(text@) {
                Some(denoted) => id matches Some(p) && p@ == denoted && p == principal_of(denoted),
                None => id is None,
            },
    {
        match bytes_of_text(text) {
            Some(bytes) => PrincipalId::from_slice(bytes.as_slice()),
            None => None,
        }
    }

    /// The bytes of the identity.
    pub fn to_bytes(&self) -> (bytes: Vec<u8>)
        ensures
            bytes@ == self@,
            bytes@.len() <= MAX_PRINCIPAL_LENGTH,
            *self == principal_of(self@),
    {
        proof {
            use_type_invariant(self);
        }
        proof {
            lemma_principal_by_bytes(*self, principal_of(self@));
        }
        let mut bytes: Vec<u8> = Vec::new();
        let mut i: usize = 0;
        while i < self.len as usize
            invariant
                i <= self.len <= 29,
                bytes@ == self.bytes@.take(i as int),
            decreases self.len - i,
        {
            bytes.push(self.bytes[i]);
            assert(self.bytes@.take(i + 1) =~= self.bytes@.take(i as int).push(self.bytes[i as int]));
            i = i + 1;
        }
        bytes
    }

    /// The textual form of the identity.
    pub fn to_text(&self) -> (text: String)
        ensures
            text@ == principal_text(self@),
    {
        let bytes = self.to_bytes();
        text_of_bytes(bytes.as_slice())
    }
}

/// Two valid identities with the same bytes are the same identity.
pub proof fn lemma_principal_by_bytes(a: PrincipalId, b: PrincipalId)
    requires
        a.well_formed(),
        b.well_formed(),
        a@ == b@,
    ensures
        a == b,
{
    assert(a@.len() == a.len && b@.len() == b.len);
    assert forall|i: int| 0 <= i < 29 implies a.bytes[i] == b.bytes[i] by {
        if i < a.len {
            assert(a.bytes[i] == a@[i]);
            assert(b.bytes[i] == b@[i]);
        }
    }
    assert(a.bytes =~= b.bytes);
}

} // verus!
