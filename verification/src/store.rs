//! The signature store: an explicitly owned slot holding the single most
//! recent signature artifact, so a sign operation can hand its product to a
//! later, independent verification. At most one artifact lives at a time; a
//! new one replaces the old. An empty store is an explicit, observable state,
//! never a default-initialized value.

use vstd::prelude::*;
use crate::catalog::AlgorithmProfile;

verus! {

/// Mathematical model of a signature artifact.
pub struct ArtifactModel {
    pub signature: Seq<u8>,
    pub key_id: Seq<char>,
    pub profile: AlgorithmProfile,
}

/// The byte output of a signing operation, together with the key identifier
/// and the profile that produced it.
pub struct SignatureArtifact {
    pub signature: Vec<u8>,
    pub key_id: String,
    pub profile: AlgorithmProfile,
}

impl View for SignatureArtifact {
    type V = ArtifactModel;

    open spec fn view(&self) -> ArtifactModel {
        ArtifactModel {
            signature: self.signature@,
            key_id: self.key_id@,
            profile: self.profile,
        }
    }
}

/// Holds the most recently produced signature artifact, or nothing if no
/// sign has succeeded yet in this process lifetime.
pub struct SignatureStore {
    current: Option<SignatureArtifact>,
}

impl View for SignatureStore {
    type V = Option<ArtifactModel>;

    closed spec fn view(&self) -> Option<ArtifactModel> {
        match self.current {
            Some(a) => Some(a@),
            None => None,
        }
    }
}

impl SignatureStore {
    /// An empty store: no signature is available yet.
    pub fn new() -> (s: Self)
        ensures
            s@ is None,
    {
        SignatureStore { current: None }
    }

    /// Replaces whatever artifact was held (if any) with the given one.
    pub fn put(&mut self, artifact: SignatureArtifact)
        ensures
            final(self)@ == Some(artifact@),
    {
        self.current = Some(artifact);
    }

    /// Borrows the held artifact, or reports that none is available.
    pub fn get(&self) -> (r: Option<&SignatureArtifact>)
        ensures
            (match r {
                Some(a) => self@ == Some(a@),
                None => self@ is None,
            }),
    {
        self.current.as_ref()
    }
}

} // verus!
