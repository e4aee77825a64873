//! The identities by which actors are addressed, and references to their
//! operations.
//!
//! An identity is held as its raw bytes. Its textual form is read by
//! `candid::Principal::from_text`.

use ic_cdk::export::Principal;
use vstd::prelude::*;

verus! {

/// The longest identity, in bytes.
pub const MAX_ID_BYTES: usize = 29;

/// What `Principal::from_text` makes of a text: the bytes of the identity
/// that the text writes, or nothing where it writes none.
pub uninterp spec fn principal_of_text(text: Seq<char>) -> Option<Seq<u8>>;

/// `Principal::from_text`, with the identity handed back as its bytes
/// (`Principal::as_slice`). It decodes the text as base 32, holds the first
/// four bytes against the checksum of the rest, and wants the text grouped
/// as the identity prints. Taken on trust: the answer depends on the text
/// alone, and an identity that is found has at most 29 bytes.
#[verifier::external_body]
fn principal_from_text(text: &str) -> (bytes: Option<Vec<u8>>)
    ensures
        match bytes {
            Some(found) => principal_of_text(text@) == Some(found@) && found@.len()
                <= MAX_ID_BYTES,
            None => principal_of_text(text@) is None,
        },
{
    match Principal::from_text(text) {
        Ok(principal) => Some(principal.as_slice().to_vec()),
        Err(_) => None,
    }
}

/// The identity of an actor.
#[derive(Debug, PartialEq, Eq)]
pub struct ActorId {
    bytes: Vec<u8>,
}

impl View for ActorId {
    type V = Seq<u8>;

    closed spec fn view(&self) -> Seq<u8> {
        self.bytes@
    }
}

impl Clone for ActorId {
    fn clone(&self) -> (copy: Self)
        ensures
            copy@ == self@,
    {
        ActorId { bytes: self.to_bytes() }
    }
}

impl ActorId {
    /// No identity is longer than `MAX_ID_BYTES`.
    pub open spec fn wf(&self) -> bool {
        self@.len() <= MAX_ID_BYTES
    }

    #[verifier::type_invariant]
    spec fn short_enough(&self) -> bool {
        self.bytes@.len() <= MAX_ID_BYTES
    }

    /// The identity with these bytes, unless they are too many.
    pub fn from_bytes(bytes: Vec<u8>) -> (id: Option<ActorId>)
        ensures
            match id {
                Some(id) => id@ == bytes@ && id.wf(),
                None => bytes@.len() > MAX_ID_BYTES,
            },
    {
        if bytes.len() <= MAX_ID_BYTES {
            Some(ActorId { bytes })
        } else {
            None
        }
    }

    /// The identity that `text` writes, if it writes one.
    pub fn from_text(text: &str) -> (id: Option<ActorId>)
        ensures
            match id {
                Some(id) => principal_of_text(text@) == Some(id@) && id.wf(),
                None => principal_of_text(text@) is None,
            },
    {
        match principal_from_text(text) {
            Some(bytes) => Some(ActorId { bytes }),
            None => None,
        }
    }

    /// The bytes of the identity.
    pub fn to_bytes(&self) -> (bytes: Vec<u8>)
        ensures
            bytes@ == self@,
            bytes@.len() <= MAX_ID_BYTES,
    {
        proof {
            use_type_invariant(self);
        }
        let bytes = self.bytes.clone();
        assert(bytes@ =~= self.bytes@);
        bytes
    }
}

/// A reference to an operation of an actor: who offers it, and under what
/// name.
#[derive(Debug, PartialEq, Eq)]
pub struct Callback {
    pub target: ActorId,
    pub method: String,
}

/// What a `Callback` is, in plain values.
pub struct CallbackView {
    pub target: Seq<u8>,
    pub method: Seq<char>,
}

impl Clone for Callback {
    fn clone(&self) -> (copy: Self)
        ensures
            copy@ == self@,
    {
        Callback { target: self.target.clone(), method: self.method.clone() }
    }
}

impl View for Callback {
    type V = CallbackView;

    open spec fn view(&self) -> CallbackView {
        CallbackView { target: self.target@, method: self.method@ }
    }
}

} // verus!
