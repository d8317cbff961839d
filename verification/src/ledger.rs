//! The ledger itself: a persistent map of attestations and a count of writes.

use vstd::prelude::*;
use crate::attestation::{Attestation, AttestationView};
use crate::error::{check_arguments, rejection, AttestError};
use crate::host::{
    block_timestamp, find_record, open_records, put_record, stored_records, RecordMap, RecordView,
};
use crate::limits::{record_fits, session_fits};
use crate::model::LedgerView;
use crate::sessions::SessionSet;

verus! {

/// The byte under which the host keeps the records of the ledger.
pub const STORAGE_PREFIX: u8 = 0x61;

/// The facts that the host supplies with a call: when it runs, and for whom.
pub struct ExecutionContext {
    /// The time of the current block, in nanoseconds since the Unix epoch.
    pub timestamp: u64,
    /// The account that made the call.
    pub caller: String,
}

impl ExecutionContext {
    /// The context of the call that is running now on behalf of `caller`:
    /// the time is that of the current block, as the host reports it.
    pub fn current(caller: String) -> (context: ExecutionContext)
        ensures
            context.caller@ == caller@,
    {
        ExecutionContext { timestamp: block_timestamp(), caller }
    }
}

/// The attestation that a stored record stands for.
pub open spec fn attestation_of(record: RecordView) -> AttestationView {
    AttestationView { score_hash: record.0, timestamp: record.1, attester: record.2 }
}

/// Whether a write with these arguments can be carried out on a ledger that
/// has accepted `count` writes: the count has room for one more, and the host
/// takes the key and the record.
pub open spec fn writable(
    count: nat,
    session_id: Seq<char>,
    score_hash: Seq<char>,
    attester: Seq<char>,
) -> bool {
    count < u64::MAX && session_fits(session_id) && record_fits(score_hash, attester)
}

/// The attestation ledger: for each session the latest attestation, and the
/// number of writes accepted so far.
///
/// A ledger that was made new answers only for the sessions written through
/// it, whatever the host holds under its prefix; a ledger that was taken up
/// again answers for all that the host holds.
pub struct Contract {
    attestations: RecordMap,
    attestation_count: u64,
    /// Whether the ledger was made new.
    fresh: bool,
    /// The sessions written through a ledger that was made new.
    written: SessionSet,
}

impl Contract {
    /// Whether the ledger answers for `session_id` from its map.
    pub closed spec fn answers_for(&self, session_id: Seq<char>) -> bool {
        !self.fresh || self.written@.contains(session_id)
    }
}

impl View for Contract {
    type V = LedgerView;

    closed spec fn view(&self) -> LedgerView {
        LedgerView {
            records: Map::new(
                |session_id: Seq<char>|
                    self.answers_for(session_id) && stored_records(self.attestations).contains_key(
                        session_id,
                    ),
                |session_id: Seq<char>|
                    attestation_of(stored_records(self.attestations)[session_id]),
            ),
            count: self.attestation_count as nat,
        }
    }
}

impl Default for Contract {
    /// The ledger at the beginning of its life: it holds no record and has
    /// accepted no write.
    fn default() -> (ledger: Self)
        ensures
            ledger@ == LedgerView::empty(),
    {
        let ledger = Contract {
            attestations: open_records(STORAGE_PREFIX),
            attestation_count: 0,
            fresh: true,
            written: SessionSet::new(),
        };
        assert(ledger@.records =~= Map::<Seq<char>, AttestationView>::empty());
        ledger
    }
}

impl Contract {
    /// The ledger taken up again after `attestation_count` accepted writes.
    /// Its records are those that the host holds for it.
    pub fn resume(attestation_count: u64) -> (ledger: Self)
        ensures
            ledger@.count == attestation_count,
    {
        Contract {
            attestations: open_records(STORAGE_PREFIX),
            attestation_count,
            fresh: false,
            written: SessionSet::new(),
        }
    }

    /// Records an attestation of `score_hash` for `session_id`, made by the
    /// caller and at the time of `context`. It replaces any earlier
    /// attestation of the session, and the write is counted. An empty
    /// argument is refused, and the ledger is then as it was.
    pub fn attest_in(
        &mut self,
        session_id: String,
        score_hash: String,
        context: ExecutionContext,
    ) -> (outcome: Result<(), AttestError>)
        requires
            rejection(session_id@, score_hash@) is None ==> writable(
                old(self)@.count,
                session_id@,
                score_hash@,
                context.caller@,
            ),
        ensures
            match old(self)@.attest(session_id@, score_hash@, context.timestamp, context.caller@) {
                Ok(next) => outcome is Ok && final(self)@ == next,
                Err(failure) => outcome == Err::<(), AttestError>(failure) && final(self)@ == old(
                    self,
                )@,
            },
    {
        match check_arguments(session_id.as_str(), score_hash.as_str()) {
            Err(failure) => Err(failure),
            Ok(()) => {
                let ghost id = session_id@;
                let ghost written = AttestationView {
                    score_hash: score_hash@,
                    timestamp: context.timestamp,
                    attester: context.caller@,
                };
                if self.fresh {
                    self.written.insert(session_id.clone());
                }
                let record = (score_hash, context.timestamp, context.caller);
                let _ = put_record(&mut self.attestations, session_id, record);
                self.attestation_count = self.attestation_count + 1;
                assert(self@.records =~= old(self)@.records.insert(id, written));
                Ok(())
            },
        }
    }

    /// Records an attestation of `score_hash` for `session_id`, made by
    /// `attester` at the time of the current block. It replaces any earlier
    /// attestation of the session, and the write is counted. An empty
    /// argument is refused before the host is asked anything, and the ledger
    /// is then as it was.
    pub fn attest(&mut self, session_id: String, score_hash: String, attester: String) -> (outcome:
        Result<(), AttestError>)
        requires
            rejection(session_id@, score_hash@) is None ==> writable(
                old(self)@.count,
                session_id@,
                score_hash@,
                attester@,
            ),
        ensures
            match rejection(session_id@, score_hash@) {
                Some(failure) => outcome == Err::<(), AttestError>(failure) && final(self)@ == old(
                    self,
                )@,
                None => {
                    &&& outcome is Ok
                    &&& final(self)@.records.contains_key(session_id@)
                    &&& final(self)@.records[session_id@].score_hash == score_hash@
                    &&& final(self)@.records[session_id@].attester == attester@
                    &&& final(self)@ == old(self)@.record(
                        session_id@,
                        final(self)@.records[session_id@],
                    )
                },
            },
    {
        match check_arguments(session_id.as_str(), score_hash.as_str()) {
            Err(failure) => Err(failure),
            Ok(()) => {
                let context = ExecutionContext::current(attester);
                self.attest_in(session_id, score_hash, context)
            },
        }
    }

    /// The attestation of `session_id`, as a copy, or `None` if the session
    /// has none. The ledger is not changed.
    pub fn verify(&self, session_id: String) -> (found: Option<Attestation>)
        requires
            session_fits(session_id@),
        ensures
            match found {
                Some(attestation) => self@.lookup(session_id@) == Some(attestation@),
                None => self@.lookup(session_id@) is None,
            },
    {
        if self.fresh && !self.written.contains(&session_id) {
            return None;
        }
        match find_record(&self.attestations, &session_id) {
            Some(record) => Some(
                Attestation {
                    score_hash: record.0.clone(),
                    timestamp: record.1,
                    attester: record.2.clone(),
                },
            ),
            None => None,
        }
    }

    /// The number of writes that the ledger has accepted, overwrites
    /// included.
    pub fn get_attestation_count(&self) -> (count: u64)
        ensures
            count == self@.count,
    {
        self.attestation_count
    }
}

} // verus!
