//! The diagnostic line that accompanies an accepted write.

use vstd::prelude::*;
use vstd::string::*;

verus! {

/// The text of the line: the session, then the hash.
pub open spec fn event_text(session_id: Seq<char>, score_hash: Seq<char>) -> Seq<char> {
    "Attestation stored for session: "@ + session_id + ", hash: "@ + score_hash
}

/// The line that reports an accepted write to whoever reads the host's log.
/// It is for people: nothing in the ledger depends on it.
pub fn attestation_event(session_id: &str, score_hash: &str) -> (line: String)
    ensures
        line@ == event_text(session_id@, score_hash@),
{
    let mut line = String::from_str("Attestation stored for session: ");
    line.append(session_id);
    line.append(", hash: ");
    line.append(score_hash);
    line
}

} // verus!
