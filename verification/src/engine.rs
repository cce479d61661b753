//! Plain-value models of what the OpenPGP engine reports. The engine itself
//! stays outside the library: callers run it and hand its results in as
//! values of these types.

use vstd::prelude::*;

verus! {

/// What the engine reports about one signature found on an artifact: whether
/// its validity summary carries the valid flag, and the signer's fingerprint
/// where it could be resolved.
#[derive(Debug, Clone, PartialEq, Eq)]
pub struct SignatureInfo {
    pub valid: bool,
    pub fingerprint: Option<Vec<u8>>,
}

/// Ghost form of `SignatureInfo`.
pub ghost struct SignatureView {
    pub valid: bool,
    pub fingerprint: Option<Seq<u8>>,
}

impl View for SignatureInfo {
    type V = SignatureView;

    open spec fn view(&self) -> SignatureView {
        SignatureView {
            valid: self.valid,
            fingerprint: match self.fingerprint {
                Some(fp) => Some(fp@),
                None => None,
            },
        }
    }
}

impl DeepView for SignatureInfo {
    type V = SignatureView;

    open spec fn deep_view(&self) -> SignatureView {
        self.view()
    }
}

/// The designated signing key as the engine reports it: its primary
/// fingerprint, where resolvable, and the fingerprints of its subkeys.
#[derive(Debug, Clone, PartialEq, Eq)]
pub struct SigningKeyInfo {
    pub primary: Option<Vec<u8>>,
    pub subkeys: Vec<Vec<u8>>,
}

/// Ghost form of `SigningKeyInfo`.
pub ghost struct SigningKeyView {
    pub primary: Option<Seq<u8>>,
    pub subkeys: Seq<Seq<u8>>,
}

impl View for SigningKeyInfo {
    type V = SigningKeyView;

    open spec fn view(&self) -> SigningKeyView {
        SigningKeyView {
            primary: match self.primary {
                Some(fp) => Some(fp@),
                None => None,
            },
            subkeys: self.subkeys.deep_view(),
        }
    }
}

} // verus!
