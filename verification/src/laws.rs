//! What holds of every ledger and of every sequence of writes.
//!
//! The laws are stated over the model of the ledger, the same model in which
//! the contracts of the executable ledger are written: what is proved here of
//! `LedgerView::attest` and `LedgerView::lookup` therefore holds of
//! `Contract::attest_in`, `Contract::attest` and `Contract::verify`, and what
//! is proved of `LedgerView::empty` holds of the ledger that
//! `Contract::default` makes.

use vstd::prelude::*;
use crate::attestation::AttestationView;
use crate::model::LedgerView;

verus! {

/// One call of the write operation: its arguments and the context it ran in.
pub struct Write {
    pub session_id: Seq<char>,
    pub score_hash: Seq<char>,
    pub timestamp: u64,
    pub attester: Seq<char>,
}

impl Write {
    /// Whether the write is accepted.
    pub open spec fn accepted(self) -> bool {
        self.session_id.len() > 0 && self.score_hash.len() > 0
    }

    /// The attestation that the write records when it is accepted.
    pub open spec fn attestation(self) -> AttestationView {
        AttestationView {
            score_hash: self.score_hash,
            timestamp: self.timestamp,
            attester: self.attester,
        }
    }
}

/// The ledger after the writes of `history`, made in order on `start`.
pub open spec fn replay(start: LedgerView, history: Seq<Write>) -> LedgerView
    decreases history.len(),
{
    if history.len() == 0 {
        start
    } else {
        let last = history.last();
        replay(start, history.drop_last()).after(
            last.session_id,
            last.score_hash,
            last.timestamp,
            last.attester,
        )
    }
}

/// How many writes of `history` are accepted.
pub open spec fn accepted_writes(history: Seq<Write>) -> nat
    decreases history.len(),
{
    if history.len() == 0 {
        0
    } else {
        accepted_writes(history.drop_last()) + if history.last().accepted() {
            1nat
        } else {
            0nat
        }
    }
}

/// The attestation of the last accepted write of `history` to `session_id`,
/// if there is one.
pub open spec fn last_write(history: Seq<Write>, session_id: Seq<char>) -> Option<AttestationView>
    decreases history.len(),
{
    if history.len() == 0 {
        None
    } else if history.last().accepted() && history.last().session_id == session_id {
        Some(history.last().attestation())
    } else {
        last_write(history.drop_last(), session_id)
    }
}

/// A write with a non-empty session identifier and a non-empty score hash is
/// accepted, and a lookup of that session then finds the attestation that
/// was written: the given score hash, with the time and the caller of the
/// write.
pub proof fn law_lookup_finds_what_was_written(
    ledger: LedgerView,
    session_id: Seq<char>,
    score_hash: Seq<char>,
    timestamp: u64,
    attester: Seq<char>,
)
    requires
        session_id.len() > 0,
        score_hash.len() > 0,
    ensures
        ledger.attest(session_id, score_hash, timestamp, attester) is Ok,
        ledger.after(session_id, score_hash, timestamp, attester).lookup(session_id) == Some(
            AttestationView { score_hash, timestamp, attester },
        ),
{
}

/// A write changes the answer for no session but its own.
pub proof fn law_write_leaves_other_sessions(
    ledger: LedgerView,
    write: Write,
    session_id: Seq<char>,
)
    requires
        write.session_id != session_id,
    ensures
        ledger.after(
            write.session_id,
            write.score_hash,
            write.timestamp,
            write.attester,
        ).lookup(session_id) == ledger.lookup(session_id),
{
}

/// The empty ledger holds no session, has counted nothing, and has no record
/// with an empty session identifier or an empty score hash.
pub proof fn law_empty_ledger_holds_nothing(session_id: Seq<char>)
    ensures
        LedgerView::empty().lookup(session_id) is None,
        LedgerView::empty().count == 0,
        LedgerView::empty().well_formed(),
{
}

/// A session that the ledger did not hold at the start, and that no write of
/// the history names, is absent at the end. In particular a ledger that
/// began empty holds no session that was never written.
pub proof fn law_unwritten_session_is_absent(
    start: LedgerView,
    history: Seq<Write>,
    session_id: Seq<char>,
)
    requires
        start.lookup(session_id) is None,
        forall|i: int| 0 <= i < history.len() ==> (#[trigger] history[i]).session_id != session_id,
    ensures
        replay(start, history).lookup(session_id) is None,
    decreases history.len(),
{
    if history.len() > 0 {
        let earlier = history.drop_last();
        assert forall|i: int| 0 <= i < earlier.len() implies (#[trigger] earlier[i]).session_id
            != session_id by {
            assert(earlier[i] == history[i]);
        }
        law_unwritten_session_is_absent(start, earlier, session_id);
        assert(history.last() == history[history.len() - 1]);
        law_write_leaves_other_sessions(replay(start, earlier), history.last(), session_id);
    }
}

/// After any history a lookup finds the attestation of the last accepted
/// write to the session, and where there was none, what the ledger held at
/// the start. So a ledger that began empty holds a session exactly when an
/// accepted write named it, and no earlier attestation of a session can be
/// had back.
pub proof fn law_lookup_finds_the_last_write(
    start: LedgerView,
    history: Seq<Write>,
    session_id: Seq<char>,
)
    ensures
        replay(start, history).lookup(session_id) == match last_write(history, session_id) {
            Some(attestation) => Some(attestation),
            None => start.lookup(session_id),
        },
        replay(LedgerView::empty(), history).lookup(session_id) == last_write(history, session_id),
    decreases history.len(),
{
    if history.len() > 0 {
        law_lookup_finds_the_last_write(start, history.drop_last(), session_id);
        law_lookup_finds_the_last_write(LedgerView::empty(), history.drop_last(), session_id);
    }
}

/// Two accepted writes to one session leave one record under it, that of the
/// second write; the first is gone. Every other session is as it was, and
/// the count has grown by two: it counts writes, not sessions.
pub proof fn law_last_write_wins(
    ledger: LedgerView,
    session_id: Seq<char>,
    first: AttestationView,
    second: AttestationView,
)
    ensures
        ledger.record(session_id, first).record(session_id, second).lookup(session_id) == Some(
            second,
        ),
        ledger.record(session_id, first).record(session_id, second).records
            == ledger.records.insert(session_id, second),
        ledger.record(session_id, first).record(session_id, second).count == ledger.count + 2,
{
    assert(ledger.records.insert(session_id, first).insert(session_id, second)
        =~= ledger.records.insert(session_id, second));
}

/// The count grows by one with an accepted write and stays with a refused
/// one.
pub proof fn law_count_steps_by_one(ledger: LedgerView, write: Write)
    ensures
        ledger.after(write.session_id, write.score_hash, write.timestamp, write.attester).count
            == ledger.count + if write.accepted() {
            1nat
        } else {
            0nat
        },
        write.accepted() <==> ledger.attest(
            write.session_id,
            write.score_hash,
            write.timestamp,
            write.attester,
        ) is Ok,
{
}

/// Over any history the count never falls: at the end it is the count at the
/// start and the number of accepted writes. It does not depend on how many
/// sessions the ledger holds. Reading the ledger is no write: a lookup and a
/// reading of the count take the ledger as it is and leave it so.
pub proof fn law_count_is_monotonic(start: LedgerView, history: Seq<Write>)
    ensures
        replay(start, history).count == start.count + accepted_writes(history),
        replay(start, history).count >= start.count,
    decreases history.len(),
{
    if history.len() > 0 {
        law_count_is_monotonic(start, history.drop_last());
        law_count_steps_by_one(replay(start, history.drop_last()), history.last());
    }
}

/// The count after a longer history is at least the count after any of its
/// beginnings.
pub proof fn law_count_never_decreases(start: LedgerView, history: Seq<Write>, earlier: int)
    requires
        0 <= earlier <= history.len(),
    ensures
        replay(start, history.take(earlier)).count <= replay(start, history).count,
    decreases history.len() - earlier,
{
    if earlier == history.len() {
        assert(history.take(earlier) =~= history);
    } else {
        law_count_never_decreases(start, history, earlier + 1);
        let longer = history.take(earlier + 1);
        assert(longer.drop_last() =~= history.take(earlier));
        law_count_steps_by_one(replay(start, history.take(earlier)), longer.last());
    }
}

/// A write with an empty session identifier or an empty score hash is
/// refused, and the ledger, records and count, is as it was.
pub proof fn law_refused_write_changes_nothing(
    ledger: LedgerView,
    session_id: Seq<char>,
    score_hash: Seq<char>,
    timestamp: u64,
    attester: Seq<char>,
)
    requires
        session_id.len() == 0 || score_hash.len() == 0,
    ensures
        ledger.attest(session_id, score_hash, timestamp, attester) is Err,
        ledger.after(session_id, score_hash, timestamp, attester) == ledger,
{
}

/// No write creates a record with an empty session identifier or an empty
/// score hash: a ledger without such a record has none after any history.
pub proof fn law_no_empty_record_is_created(start: LedgerView, history: Seq<Write>)
    requires
        start.well_formed(),
    ensures
        replay(start, history).well_formed(),
    decreases history.len(),
{
    if history.len() > 0 {
        law_no_empty_record_is_created(start, history.drop_last());
    }
}

} // verus!
