//! The attestation record and its mathematical model.

use vstd::prelude::*;

verus! {

/// What an attestation is, as plain mathematical values.
pub struct AttestationView {
    pub score_hash: Seq<char>,
    pub timestamp: u64,
    pub attester: Seq<char>,
}

/// A recorded claim: the hash of a score payload, the time of the block in
/// which it was recorded, and the account that submitted it.
#[derive(Debug)]
pub struct Attestation {
    pub score_hash: String,
    pub timestamp: u64,
    pub attester: String,
}

impl View for Attestation {
    type V = AttestationView;

    open spec fn view(&self) -> AttestationView {
        AttestationView {
            score_hash: self.score_hash@,
            timestamp: self.timestamp,
            attester: self.attester@,
        }
    }
}

impl Clone for Attestation {
    fn clone(&self) -> (copy: Self)
        ensures
            copy@ == self@,
    {
        Attestation {
            score_hash: self.score_hash.clone(),
            timestamp: self.timestamp,
            attester: self.attester.clone(),
        }
    }
}

} // verus!
