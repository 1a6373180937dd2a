//! Data that the identity provider signs: either still unsigned, or carrying
//! its proof.
use vstd::prelude::*;
use crate::bytes::opt_view;
use crate::signature::{jws_signer, verified_signer};

verus! {

/// A digital signature and what it binds.
#[derive(Clone, Debug, PartialEq, Eq)]
pub struct Proof {
    /// The key that signed, as a fragment of the signer's document.
    pub method: Vec<u8>,
    /// The challenge bound into the signature, if any.
    pub challenge: Option<Vec<u8>>,
    /// Unix seconds after which the proof no longer counts, if any.
    pub expires: Option<i64>,
    /// The signature: a compact JWS token. Where it signs data that it
    /// does not carry, it covers that data unencoded.
    pub value: Vec<u8>,
}

/// Mathematical content of a [`Proof`].
pub struct ProofView {
    pub method: Seq<u8>,
    pub challenge: Option<Seq<u8>>,
    pub expires: Option<int>,
    pub value: Seq<u8>,
}

impl View for Proof {
    type V = ProofView;

    open spec fn view(&self) -> ProofView {
        ProofView {
            method: self.method@,
            challenge: opt_view(self.challenge),
            expires: match self.expires {
                Some(e) => Some(e as int),
                None => None,
            },
            value: self.value@,
        }
    }
}

/// The view of an optional proof.
pub open spec fn opt_proof_view(p: Option<Proof>) -> Option<ProofView> {
    match p {
        Some(p) => Some(p@),
        None => None,
    }
}

/// What the signer is asked to bind into a proof.
#[derive(Clone, Debug, PartialEq, Eq)]
pub struct ProofOptions {
    /// The key to sign with, as a fragment of the signer's document.
    pub method: Vec<u8>,
    pub challenge: Option<Vec<u8>>,
    pub expires: Option<i64>,
}

/// A text with room for a signature. It is either unsigned or signed, so
/// that a proof can only be asked of data that has one.
#[derive(Clone, Debug, PartialEq, Eq)]
pub enum Signable {
    Unsigned { data: Vec<u8> },
    Signed { data: Vec<u8>, proof: Proof },
}

/// Mathematical content of a [`Signable`].
pub struct SignableView {
    pub data: Seq<u8>,
    pub proof: Option<ProofView>,
}

impl View for Signable {
    type V = SignableView;

    open spec fn view(&self) -> SignableView {
        match self {
            Signable::Unsigned { data } => SignableView { data: data@, proof: None },
            Signable::Signed { data, proof } => SignableView { data: data@, proof: Some(proof@) },
        }
    }
}

impl Signable {
    /// Unsigned data.
    pub fn new(data: Vec<u8>) -> (r: Self)
        ensures
            r@ == (SignableView { data: data@, proof: None }),
    {
        Signable::Unsigned { data }
    }

    /// The signed text.
    pub fn data(&self) -> (r: &Vec<u8>)
        ensures
            r@ == self@.data,
    {
        match self {
            Signable::Unsigned { data } => data,
            Signable::Signed { data, .. } => data,
        }
    }

    /// The proof, if the data is signed.
    pub fn signature(&self) -> (r: Option<&Proof>)
        ensures
            r is Some <==> self@.proof is Some,
            r matches Some(p) ==> Some(p@) == self@.proof,
    {
        match self {
            Signable::Unsigned { .. } => None,
            Signable::Signed { proof, .. } => Some(proof),
        }
    }

    /// Attaches `signature`, replacing any earlier proof. The data stays.
    pub fn set_signature(&mut self, signature: Proof)
        ensures
            final(self)@ == (SignableView { data: old(self)@.data, proof: Some(signature@) }),
    {
        let mut taken = Signable::Unsigned { data: Vec::new() };
        core::mem::swap(self, &mut taken);
        let data = match taken {
            Signable::Unsigned { data } => data,
            Signable::Signed { data, .. } => data,
        };
        *self = Signable::Signed { data, proof: signature };
    }
}

/// Who signed data, judged against `document`: the identifier of that
/// document where the detached signature over the data verifies against it;
/// nobody where it does not, or where the data is unsigned.
pub open spec fn data_signer(signed: SignableView, document: Seq<u8>) -> Option<Seq<u8>> {
    match signed.proof {
        Some(proof) => verified_signer(document, proof.value, Some(signed.data), None),
        None => None,
    }
}

/// Finds who signed data, judged against `document`.
pub fn signer_of_data(signed: &Signable, document: &[u8]) -> (r: Option<Vec<u8>>)
    ensures
        opt_view(r) == data_signer(signed@, document@),
{
    match signed {
        Signable::Signed { data, proof } => jws_signer(
            document,
            proof.value.as_slice(),
            Some(data.as_slice()),
            None,
        ),
        Signable::Unsigned { .. } => None,
    }
}

} // verus!
