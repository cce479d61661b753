//! The decision vocabulary: why an anchor is refused, why a run must stop,
//! and the final outcome for one alias binding.

use vstd::prelude::*;

verus! {

/// Why an alias binding was refused. Each variant is a definitive negative
/// trust decision, never a transient condition.
#[derive(Clone, Copy, Debug, PartialEq, Eq, Structural)]
pub enum Reason {
    /// The engine could not verify the artifact at all.
    VerificationError,
    /// The artifact's plaintext does not equal the claimed key identifier.
    ContentMismatch,
    /// The artifact does not carry exactly one signature.
    WrongSignatureCount,
    /// The single signature's validity summary lacks the valid flag.
    InvalidSignature,
    /// The signature's signer fingerprint could not be resolved.
    NoFingerprint,
    /// The designated signing key could not be looked up.
    MissingSigningKey,
    /// The signature was made by neither the designated key nor a subkey.
    WrongSigner,
    /// The operator did not give an affirmative reply to the consent prompt.
    ConsentRefused,
}

/// A fatal failure of the environment or the engine: the run must stop, as a
/// partially processed batch with silent skips would mislead the operator.
#[derive(Clone, Copy, Debug, PartialEq, Eq, Structural)]
pub enum Cause {
    /// The anchor directory could not be found or created.
    StoreUnavailable,
    /// The artifact file could not be opened or read.
    ArtifactUnreadable,
    /// The consent prompt could not be shown or the reply not read.
    PromptFailed,
    /// The designated signing key could not be loaded for signing.
    SigningKeyUnavailable,
    /// The engine could not produce the clear-signed artifact.
    SigningFailed,
    /// The new artifact could not be written to the store.
    PersistFailed,
}

/// The final decision for one alias binding.
#[derive(Clone, Copy, Debug, PartialEq, Eq, Structural)]
pub enum Outcome {
    /// An existing anchor proves the binding.
    Trusted,
    /// A new anchor was created with the operator's consent.
    NewlyAnchored,
    /// The binding is refused; the operator must act outside the tool.
    Rejected(Reason),
    /// The environment or the engine failed; the whole run must stop.
    Aborted(Cause),
}

impl Outcome {
    /// Whether the caller may go on to use the binding.
    pub fn is_success(&self) -> (r: bool)
        ensures
            r == (*self is Trusted || *self is NewlyAnchored),
    {
        match self {
            Outcome::Trusted => true,
            Outcome::NewlyAnchored => true,
            _ => false,
        }
    }
}

} // verus!
