//! The persistent identity of a listening endpoint.
//!
//! A server loads its secret from a fixed-size key file, or generates and
//! persists a fresh one when no file exists. The public identifier is derived
//! from the secret; it is the dialable address and never transmitted.

use vstd::prelude::*;

use crate::KEY_LEN;
use crate::errors::TunnelError;

verus! {

/// The public identifier derived from a 32-byte identity secret.
pub uninterp spec fn public_of(secret: Seq<u8>) -> Seq<u8>;

/// Relies on `iroh::SecretKey::from_bytes`, `iroh::SecretKey::public` and
/// `iroh::PublicKey::as_bytes`: the derived public key is a function of the
/// secret bytes alone, and is 32 bytes long (`PublicKey::LENGTH`).
#[verifier::external_body]
fn derive_public(secret: &Vec<u8>) -> (p: Vec<u8>)
    requires
        secret@.len() == KEY_LEN,
    ensures
        p@ == public_of(secret@),
        p@.len() == KEY_LEN,
{
    let bytes: [u8; 32] = secret.as_slice().try_into().unwrap();
    let key = iroh::SecretKey::from_bytes(&bytes);
    key.public().as_bytes().to_vec()
}

/// Relies on `iroh::SecretKey::generate` and `iroh::SecretKey::to_bytes`: a
/// fresh cryptographically random secret. Nothing is promised of its value,
/// only its size.
#[verifier::external_body]
fn generate_secret() -> (s: Vec<u8>)
    ensures
        s@.len() == KEY_LEN,
{
    iroh::SecretKey::generate().to_bytes().to_vec()
}

/// A loaded or freshly created identity: the fixed-size secret and the
/// public identifier derived from it.
pub struct Identity {
    /// The secret key bytes, exactly `KEY_LEN` of them.
    pub secret: Vec<u8>,
    /// The public identifier, derived from the secret.
    pub public: Vec<u8>,
}

impl Identity {
    /// A well-formed identity: the secret has the fixed size and the public
    /// identifier is the one derived from it.
    pub open spec fn wf(self) -> bool {
        &&& self.secret@.len() == KEY_LEN
        &&& self.public@ == public_of(self.secret@)
    }

    /// Build the identity belonging to a 32-byte secret.
    pub fn from_secret(secret: Vec<u8>) -> (id: Identity)
        requires
            secret@.len() == KEY_LEN,
        ensures
            id.wf(),
            id.secret@ == secret@,
    {
        let public = derive_public(&secret);
        Identity { secret, public }
    }
}

/// What a fresh `get_or_create` run hands back: the identity, and the bytes
/// to persist first when the identity was newly generated.
pub struct IdentityOutcome {
    /// The identity to listen under.
    pub id: Identity,
    /// `Some(bytes)` exactly when no key file existed: the caller must write
    /// these bytes to the key file before using the identity, so that no
    /// partial-identity state is ever observable.
    pub persist: Option<Vec<u8>>,
}

/// Decide the identity from the key file's contents: `file` is `Some` of the
/// file's bytes when the file exists, `None` when it does not.
///
/// An existing file must hold exactly the fixed-size secret; any other size
/// is a fatal error and never causes silent regeneration. A missing file
/// yields a fresh secret, handed back for persisting.
pub fn get_or_create(file: Option<Vec<u8>>) -> (r: Result<IdentityOutcome, TunnelError>)
    ensures
        file matches Some(b) ==> ({
            &&& b@.len() == KEY_LEN ==> (r matches Ok(o) && o.id.wf() && o.id.secret@ == b@
                && o.persist is None)
            &&& b@.len() != KEY_LEN ==> (r matches Err(e) && e == (TunnelError::IdentityIo {
                found: b@.len() as usize,
            }))
        }),
        file is None ==> (r matches Ok(o) && o.id.wf() && (o.persist matches Some(p) && p@
            == o.id.secret@)),
{
    match file {
        Some(bytes) => {
            if bytes.len() == KEY_LEN {
                let id = Identity::from_secret(bytes);
                Ok(IdentityOutcome { id, persist: None })
            } else {
                Err(TunnelError::IdentityIo { found: bytes.len() })
            }
        },
        None => {
            let secret = generate_secret();
            let mut persisted: Vec<u8> = Vec::with_capacity(secret.len());
            let mut i: usize = 0;
            while i < secret.len()
                invariant
                    0 <= i <= secret@.len(),
                    persisted@ == secret@.take(i as int),
                decreases secret@.len() - i,
            {
                let byte = secret[i];
                persisted.push(byte);
                proof {
                    assert(persisted@ =~= secret@.take(i + 1));
                }
                i = i + 1;
            }
            proof {
                assert(persisted@ =~= secret@);
            }
            let id = Identity::from_secret(secret);
            Ok(IdentityOutcome { id, persist: Some(persisted) })
        },
    }
}

/// Loading the same key file twice yields the same public identifier: the
/// derivation depends on the secret bytes alone. Together with
/// `get_or_create`'s contract — a wrong-size file fails rather than silently
/// regenerating — this pins the identity round trip down.
pub proof fn lemma_identity_deterministic(a: Identity, b: Identity)
    requires
        a.wf(),
        b.wf(),
        a.secret@ == b.secret@,
    ensures
        a.public@ == b.public@,
{
}

} // verus!
