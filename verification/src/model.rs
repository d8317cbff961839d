//! The ledger as mathematics: what it holds, and what each operation makes of
//! it. The contracts of the executable ledger are stated over this model.

use vstd::prelude::*;
use crate::attestation::AttestationView;
use crate::error::{rejection, AttestError};

verus! {

/// The whole state of a ledger.
pub struct LedgerView {
    /// The latest attestation of each session that has one.
    pub records: Map<Seq<char>, AttestationView>,
    /// How many writes have been accepted, overwrites included.
    pub count: nat,
}

impl LedgerView {
    /// The ledger that holds nothing and has accepted nothing.
    pub open spec fn empty() -> LedgerView {
        LedgerView { records: Map::empty(), count: 0 }
    }

    /// The attestation of a session, if it has one.
    pub open spec fn lookup(self, session_id: Seq<char>) -> Option<AttestationView> {
        if self.records.contains_key(session_id) {
            Some(self.records[session_id])
        } else {
            None
        }
    }

    /// The ledger after an accepted write: the attestation stands under the
    /// session, in place of any earlier one, and the write is counted.
    pub open spec fn record(self, session_id: Seq<char>, attestation: AttestationView) -> LedgerView {
        LedgerView {
            records: self.records.insert(session_id, attestation),
            count: self.count + 1,
        }
    }

    /// What a write makes of the ledger: the failure, for arguments that are
    /// refused, and else the ledger with the new attestation recorded.
    pub open spec fn attest(
        self,
        session_id: Seq<char>,
        score_hash: Seq<char>,
        timestamp: u64,
        attester: Seq<char>,
    ) -> Result<LedgerView, AttestError> {
        match rejection(session_id, score_hash) {
            Some(failure) => Err(failure),
            None => Ok(self.record(session_id, AttestationView { score_hash, timestamp, attester })),
        }
    }

    /// The ledger after a write, whether it was accepted or not: a refused
    /// write leaves it as it was.
    pub open spec fn after(
        self,
        session_id: Seq<char>,
        score_hash: Seq<char>,
        timestamp: u64,
        attester: Seq<char>,
    ) -> LedgerView {
        match self.attest(session_id, score_hash, timestamp, attester) {
            Ok(next) => next,
            Err(_) => self,
        }
    }

    /// No session identifier and no score hash in the ledger is empty.
    pub open spec fn well_formed(self) -> bool {
        forall|session_id: Seq<char>| #[trigger]
            self.records.contains_key(session_id) ==> session_id.len() > 0
                && self.records[session_id].score_hash.len() > 0
    }
}

} // verus!
