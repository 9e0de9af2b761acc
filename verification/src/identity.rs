//! The key pair that a peer keeps from one run to the next.

use libp2p::identity::{DecodingError, Keypair};
use libp2p::PeerId;
use vstd::prelude::*;

verus! {

/// `libp2p::identity::Keypair`, carried through unread.
#[verifier::external_type_specification]
#[verifier::external_body]
pub struct ExKeypair(libp2p::identity::Keypair);

/// `libp2p::identity::DecodingError`, carried through unread.
#[verifier::external_type_specification]
#[verifier::external_body]
pub struct ExDecodingError(libp2p::identity::DecodingError);

/// The protobuf encoding of a key pair, for the kinds of key that have one.
pub uninterp spec fn identity_encoding(identity: Keypair) -> Option<Seq<u8>>;

/// The key pair that a protobuf encoding stands for.
pub uninterp spec fn decoded_identity(bytes: Seq<u8>) -> Option<Keypair>;

/// The id of the peer that holds a key pair.
pub uninterp spec fn identity_peer(identity: Keypair) -> PeerId;

/// `Keypair::generate_ed25519` gives some Ed25519 key pair, which is of a kind
/// that has an encoding. Which one is up to chance.
pub assume_specification[ Keypair::generate_ed25519 ]() -> (res: Keypair)
    ensures
        identity_encoding(res) is Some,
;

/// `Keypair::to_protobuf_encoding` succeeds on the kinds of key that have an
/// encoding. Decoding what it gives yields the key pair again.
pub assume_specification[ Keypair::to_protobuf_encoding ](identity: &Keypair) -> (res: Result<
    Vec<u8>,
    DecodingError,
>)
    ensures
        res is Ok <==> identity_encoding(*identity) is Some,
        res matches Ok(bytes) ==> identity_encoding(*identity) == Some(bytes@)
            && decoded_identity(bytes@) == Some(*identity),
;

/// `Keypair::from_protobuf_encoding` gives the key pair that the bytes encode, and
/// an error where they encode none.
pub assume_specification[ Keypair::from_protobuf_encoding ](bytes: &[u8]) -> (res: Result<
    Keypair,
    DecodingError,
>)
    ensures
        match decoded_identity(bytes@) {
            Some(identity) => res == Ok::<Keypair, DecodingError>(identity),
            None => res is Err,
        },
;

/// `PeerId::from`, applied to the public key of a key pair.
#[verifier::external_body]
fn peer_of(identity: &Keypair) -> (res: PeerId)
    ensures
        res == identity_peer(*identity),
{
    PeerId::from(identity.public())
}

/// The id of the peer that holds the identity.
pub fn local_peer(identity: &Keypair) -> (res: PeerId)
    ensures
        res == identity_peer(*identity),
{
    peer_of(identity)
}

/// The identity of a run, and what is to be stored of it.
pub struct LoadedIdentity {
    pub identity: Keypair,
    pub to_store: Option<Vec<u8>>,
}

/// Why a run has no identity.
pub enum IdentityError {
    /// What was stored is no identity.
    Unreadable(DecodingError),
    /// A new identity cannot be stored.
    Unstorable(DecodingError),
}

/// What loading an identity comes to, given what was stored before: what was
/// stored is used and left as it is, and an error if it is no identity; where
/// nothing was stored, a new identity is stored in a form that can be read again.
pub open spec fn identity_loaded(
    stored: Option<Seq<u8>>,
    res: Result<LoadedIdentity, IdentityError>,
) -> bool {
    match stored {
        Some(bytes) => match decoded_identity(bytes) {
            Some(identity) => res == Ok::<LoadedIdentity, IdentityError>(
                LoadedIdentity { identity, to_store: None },
            ),
            None => res matches Err(IdentityError::Unreadable(_)),
        },
        None => {
            &&& res matches Ok(loaded)
            &&& loaded.to_store matches Some(bytes)
            &&& identity_encoding(loaded.identity) == Some(bytes@)
            &&& decoded_identity(bytes@) == Some(loaded.identity)
        },
    }
}

/// The identity of a run that found one stored, once it is decoded.
pub fn stored_identity(decoded: Result<Keypair, DecodingError>) -> (res: Result<
    LoadedIdentity,
    IdentityError,
>)
    ensures
        res == (match decoded {
            Ok(identity) => Ok::<LoadedIdentity, IdentityError>(
                LoadedIdentity { identity, to_store: None },
            ),
            Err(error) => Err(IdentityError::Unreadable(error)),
        }),
{
    match decoded {
        Ok(identity) => Ok(LoadedIdentity { identity, to_store: None }),
        Err(error) => Err(IdentityError::Unreadable(error)),
    }
}

/// The identity of a run that has created one, once it is encoded.
pub fn created_identity(identity: Keypair, encoded: Result<Vec<u8>, DecodingError>) -> (res: Result<
    LoadedIdentity,
    IdentityError,
>)
    ensures
        res == (match encoded {
            Ok(bytes) => Ok::<LoadedIdentity, IdentityError>(
                LoadedIdentity { identity, to_store: Some(bytes) },
            ),
            Err(error) => Err(IdentityError::Unstorable(error)),
        }),
{
    match encoded {
        Ok(bytes) => Ok(LoadedIdentity { identity, to_store: Some(bytes) }),
        Err(error) => Err(IdentityError::Unstorable(error)),
    }
}

/// The identity of this run, from what an earlier run has stored, if any has.
pub fn read_or_create_identity(stored: Option<Vec<u8>>) -> (res: Result<
    LoadedIdentity,
    IdentityError,
>)
    ensures
        identity_loaded(
            match stored {
                Some(bytes) => Some(bytes@),
                None => None,
            },
            res,
        ),
{
    match stored {
        Some(bytes) => stored_identity(Keypair::from_protobuf_encoding(bytes.as_slice())),
        None => {
            let identity = Keypair::generate_ed25519();
            let encoded = identity.to_protobuf_encoding();
            created_identity(identity, encoded)
        },
    }
}

/// An identity outlives the run that created it: a later run that finds what was
/// stored has the same key pair, hence the same peer id, and stores nothing.
pub proof fn identity_survives_restart(
    first: Result<LoadedIdentity, IdentityError>,
    stored: Vec<u8>,
    second: Result<LoadedIdentity, IdentityError>,
)
    requires
        identity_loaded(None, first),
        first->Ok_0.to_store == Some(stored),
        identity_loaded(Some(stored@), second),
    ensures
        second is Ok,
        second->Ok_0.identity == first->Ok_0.identity,
        identity_peer(second->Ok_0.identity) == identity_peer(first->Ok_0.identity),
        second->Ok_0.to_store is None,
{
}

/// A stored identity serves every run alike: two runs that find the same bytes store
/// nothing, and have the same key pair or are refused both.
pub proof fn identity_stays(
    stored: Seq<u8>,
    first: Result<LoadedIdentity, IdentityError>,
    second: Result<LoadedIdentity, IdentityError>,
)
    requires
        identity_loaded(Some(stored), first),
        identity_loaded(Some(stored), second),
    ensures
        first is Ok <==> second is Ok,
        first matches Ok(loaded) ==> {
            &&& loaded.to_store is None
            &&& second->Ok_0.to_store is None
            &&& second->Ok_0.identity == loaded.identity
            &&& identity_peer(second->Ok_0.identity) == identity_peer(loaded.identity)
        },
        first matches Err(error) ==> error is Unreadable && second->Err_0 is Unreadable,
{
}

/// What was stored decides, whatever it is: a run has the key pair that the bytes stand
/// for, and no other; bytes that stand for none are refused, and never replaced.
pub proof fn stored_identity_decides(
    stored: Seq<u8>,
    res: Result<LoadedIdentity, IdentityError>,
)
    requires
        identity_loaded(Some(stored), res),
    ensures
        res is Ok <==> decoded_identity(stored) is Some,
        res matches Ok(loaded) ==> decoded_identity(stored) == Some(loaded.identity)
            && loaded.to_store is None,
        res matches Err(error) ==> error is Unreadable,
{
}

/// A run that finds nothing stored always has an identity, and stores bytes that stand for
/// that very identity.
pub proof fn new_identity_can_be_read_again(res: Result<LoadedIdentity, IdentityError>)
    requires
        identity_loaded(None, res),
    ensures
        res is Ok,
        res->Ok_0.to_store is Some,
        identity_encoding(res->Ok_0.identity) == Some(res->Ok_0.to_store->0@),
        decoded_identity(res->Ok_0.to_store->0@) == Some(res->Ok_0.identity),
{
}

} // verus!
