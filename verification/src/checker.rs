//! The signature verifier: given an engine-verified artifact (plaintext and
//! signature list), the claimed key identifier, and the designated signing
//! key, decide whether the artifact is a valid, single-signer, trusted
//! anchor for that identifier. The first failing check wins, each with its
//! own reason.

use vstd::prelude::*;
use crate::engine::{SignatureInfo, SignatureView, SigningKeyInfo, SigningKeyView};
use crate::outcome::{Outcome, Reason};
use crate::text::{bytes_eq, copy_bytes, matches_trimmed, trimmed};

verus! {

/// A byte-string result abstracted to its view.
pub open spec fn bytes_result_view(r: Result<Vec<u8>, Reason>) -> Result<Seq<u8>, Reason> {
    match r {
        Ok(v) => Ok(v@),
        Err(e) => Err(e),
    }
}

/// The checks the verifier runs on a decoded artifact, in strict order:
/// the plaintext, trimmed of trailing whitespace, must equal the claimed
/// identifier; exactly one signature must be present; it must carry the
/// valid flag; its signer fingerprint must be resolvable. On success the
/// result is that fingerprint.
pub open spec fn eval_artifact(
    plaintext: Seq<u8>,
    sigs: Seq<SignatureView>,
    expected: Seq<u8>,
) -> Result<Seq<u8>, Reason> {
    if trimmed(plaintext) != expected {
        Err(Reason::ContentMismatch)
    } else if sigs.len() != 1 {
        Err(Reason::WrongSignatureCount)
    } else if !sigs[0].valid {
        Err(Reason::InvalidSignature)
    } else {
        match sigs[0].fingerprint {
            None => Err(Reason::NoFingerprint),
            Some(fp) => Ok(fp),
        }
    }
}

/// Whether `fp` is the designated key's primary fingerprint or the
/// fingerprint of one of its subkeys.
pub open spec fn fp_matches_key(fp: Seq<u8>, key: SigningKeyView) -> bool {
    ||| key.primary matches Some(p) && p == fp
    ||| exists|i: int| 0 <= i < key.subkeys.len() && key.subkeys[i] == fp
}

/// The verifier's whole decision once the engine has decoded the artifact:
/// the artifact checks, then the signing-key lookup (`None` when the lookup
/// failed), then the signer comparison.
pub open spec fn verify_decision(
    plaintext: Seq<u8>,
    sigs: Seq<SignatureView>,
    expected: Seq<u8>,
    key: Option<SigningKeyView>,
) -> Outcome {
    match eval_artifact(plaintext, sigs, expected) {
        Err(r) => Outcome::Rejected(r),
        Ok(fp) => match key {
            None => Outcome::Rejected(Reason::MissingSigningKey),
            Some(k) => if fp_matches_key(fp, k) {
                Outcome::Trusted
            } else {
                Outcome::Rejected(Reason::WrongSigner)
            },
        },
    }
}

/// Run the ordered artifact checks; on success return the signer's
/// fingerprint, else the first failing check's reason.
pub fn evaluate_artifact(
    plaintext: &Vec<u8>,
    signatures: &Vec<SignatureInfo>,
    expected: &Vec<u8>,
) -> (r: Result<Vec<u8>, Reason>)
    ensures
        bytes_result_view(r) == eval_artifact(plaintext@, signatures.deep_view(), expected@),
{
    if !matches_trimmed(plaintext, expected) {
        return Err(Reason::ContentMismatch);
    }
    if signatures.len() != 1 {
        return Err(Reason::WrongSignatureCount);
    }
    let sig = &signatures[0];
    proof {
        assert(signatures.deep_view()[0] == signatures@[0]@);
    }
    if !sig.valid {
        return Err(Reason::InvalidSignature);
    }
    match &sig.fingerprint {
        None => Err(Reason::NoFingerprint),
        Some(fp) => Ok(copy_bytes(fp)),
    }
}

/// Whether the fingerprint is the designated key's own or one of its
/// subkeys' fingerprints.
pub fn signer_matches(fingerprint: &Vec<u8>, key: &SigningKeyInfo) -> (r: bool)
    ensures
        r == fp_matches_key(fingerprint@, key@),
{
    match &key.primary {
        Some(p) => {
            if bytes_eq(fingerprint, p) {
                return true;
            }
        },
        None => {},
    }
    let mut i: usize = 0;
    while i < key.subkeys.len()
        invariant
            i <= key.subkeys.len(),
            forall|j: int| 0 <= j < i ==> key.subkeys@[j]@ != fingerprint@,
        decreases key.subkeys.len() - i,
    {
        if bytes_eq(fingerprint, &key.subkeys[i]) {
            proof {
                assert(key@.subkeys[i as int] == fingerprint@);
            }
            return true;
        }
        i = i + 1;
    }
    proof {
        assert(forall|j: int| 0 <= j < key@.subkeys.len()
            ==> key@.subkeys[j] == key.subkeys@[j]@);
    }
    false
}

/// Law: verification is a function of the artifact data, the claimed
/// identifier and the designated key alone, so verifying the same
/// unmodified artifact against the same identifier twice decides the same
/// way — in particular, an anchor found `Trusted` once is `Trusted` again.
pub proof fn lemma_verification_idempotent(
    plaintext: Seq<u8>,
    sigs: Seq<SignatureView>,
    expected: Seq<u8>,
    key: Option<SigningKeyView>,
    first: Outcome,
    second: Outcome,
)
    requires
        first == verify_decision(plaintext, sigs, expected, key),
        second == verify_decision(plaintext, sigs, expected, key),
    ensures
        first == second,
        first == Outcome::Trusted ==> second == Outcome::Trusted,
{
}

/// Law: tamper detection. If the artifact's plaintext, trimmed of trailing
/// whitespace, differs from the claimed identifier — as when the identifier
/// in the mapping is altered without re-signing — verification rejects with
/// `ContentMismatch`, whatever the signatures and the designated key.
pub proof fn lemma_tamper_detected(
    plaintext: Seq<u8>,
    sigs: Seq<SignatureView>,
    expected: Seq<u8>,
    key: Option<SigningKeyView>,
)
    requires
        trimmed(plaintext) != expected,
    ensures
        verify_decision(plaintext, sigs, expected, key)
            == Outcome::Rejected(Reason::ContentMismatch),
{
}

/// Law: wrong-signer detection. An artifact whose content matches and whose
/// single valid signature resolves to a fingerprint that is neither the
/// designated key's nor one of its subkeys' is rejected as `WrongSigner`.
pub proof fn lemma_wrong_signer_detected(
    plaintext: Seq<u8>,
    sigs: Seq<SignatureView>,
    expected: Seq<u8>,
    key: SigningKeyView,
)
    requires
        trimmed(plaintext) == expected,
        sigs.len() == 1,
        sigs[0].valid,
        sigs[0].fingerprint matches Some(fp) && !fp_matches_key(fp, key),
    ensures
        verify_decision(plaintext, sigs, expected, Some(key))
            == Outcome::Rejected(Reason::WrongSigner),
{
}

/// Law: subkey acceptance. An artifact whose content matches and whose
/// single valid signature was made by a subkey of the designated signing
/// key is `Trusted`.
pub proof fn lemma_subkey_accepted(
    plaintext: Seq<u8>,
    sigs: Seq<SignatureView>,
    expected: Seq<u8>,
    key: SigningKeyView,
    i: int,
)
    requires
        trimmed(plaintext) == expected,
        sigs.len() == 1,
        sigs[0].valid,
        sigs[0].fingerprint matches Some(fp) && 0 <= i < key.subkeys.len()
            && key.subkeys[i] == fp,
    ensures
        verify_decision(plaintext, sigs, expected, Some(key)) == Outcome::Trusted,
{
}

/// Law: multi-signature rejection. However well its content matches, an
/// artifact that does not carry exactly one signature — none, or two or
/// more, however valid — is rejected as `WrongSignatureCount`.
pub proof fn lemma_multiple_signatures_rejected(
    plaintext: Seq<u8>,
    sigs: Seq<SignatureView>,
    expected: Seq<u8>,
    key: Option<SigningKeyView>,
)
    requires
        trimmed(plaintext) == expected,
        sigs.len() != 1,
    ensures
        verify_decision(plaintext, sigs, expected, key)
            == Outcome::Rejected(Reason::WrongSignatureCount),
{
}

} // verus!
