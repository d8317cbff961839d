//! The host runtime, as far as the ledger relies on it.
//!
//! Everything in this module is trusted rather than proved: each function
//! makes one call into `near_sdk`, and its contract is what the ledger takes
//! that call to do. The sizes that the host's storage takes are left out by
//! `requires`. A call that runs out of gas is ended by the host, which then
//! commits nothing of it; that is not described here.

use vstd::prelude::*;
use crate::limits::{record_fits, session_fits};

verus! {

/// The fields of a stored record, in the order in which they are persisted:
/// score hash, timestamp, attester.
pub type StoredRecord = (String, u64, String);

/// A stored record as mathematical values.
pub type RecordView = (Seq<char>, u64, Seq<char>);

/// The persistent map from session identifier to stored record: a
/// `near_sdk::store::LookupMap`, which lives in the host's storage and cannot
/// be walked. Its contents are known only through `stored_records`.
#[verifier::external_body]
pub struct RecordMap {
    inner: near_sdk::store::LookupMap<String, StoredRecord>,
}

/// What a record map yields for each session identifier: the entry that a
/// lookup through this map finds, for exactly the keys for which it finds one.
///
/// A `LookupMap` answers from what it has loaded or been given, and turns to
/// the host's storage under its prefix for a key that it has not seen yet. A
/// key's answer is kept once it is known, so one map never gives two answers
/// for a key unless a write through that same map came between.
pub uninterp spec fn stored_records(map: RecordMap) -> Map<Seq<char>, RecordView>;

/// The view of a stored record.
pub open spec fn record_view(record: StoredRecord) -> RecordView {
    (record.0@, record.1, record.2@)
}

/// `LookupMap::new`: a map over the storage under the one byte `prefix`.
/// Every record map is made here, so the prefix of each is one byte long.
///
/// Nothing is claimed of its contents: the call reads no storage, and what
/// the map will yield is whatever the host already holds under the prefix
/// (nothing, where the prefix has not been used before). Any bytes found
/// there are taken to be records that such a map wrote.
#[verifier::external_body]
pub(crate) fn open_records(prefix: u8) -> (map: RecordMap) {
    RecordMap { inner: near_sdk::store::LookupMap::new(prefix) }
}

/// `LookupMap::get`: the record under `session_id`, if the map yields one.
/// The contents of the map are as they were.
///
/// For a key that it has not seen yet the map asks the host, which takes no
/// key above its limit: such a session identifier is left out.
#[verifier::external_body]
pub(crate) fn find_record<'a>(map: &'a RecordMap, session_id: &String) -> (found: Option<
    &'a StoredRecord,
>)
    requires
        session_fits(session_id@),
    ensures
        found is Some == stored_records(*map).contains_key(session_id@),
        found matches Some(record) ==> record_view(*record) == stored_records(*map)[session_id@],
{
    map.inner.get(session_id)
}

/// `LookupMap::insert`: puts `record` under `session_id`, in place of any
/// record that was there, and leaves every other key as it was. The result is
/// the record that was replaced, if there was one.
///
/// For a key that it has not seen yet the map asks the host for the record
/// to replace, and the host takes no key above its limit. The new record
/// goes to the host when the map is dropped, and the host takes no value
/// above its limit. Such a session identifier and such a record are left
/// out.
#[verifier::external_body]
pub(crate) fn put_record(map: &mut RecordMap, session_id: String, record: StoredRecord) -> (previous:
    Option<StoredRecord>)
    requires
        session_fits(session_id@),
        record_fits(record.0@, record.2@),
    ensures
        stored_records(*final(map)) == stored_records(*old(map)).insert(
            session_id@,
            record_view(record),
        ),
        previous is Some == stored_records(*old(map)).contains_key(session_id@),
        previous matches Some(replaced) ==> record_view(replaced) == stored_records(*old(map))[
            session_id@
        ],
{
    map.inner.insert(session_id, record)
}

/// `near_sdk::env::block_timestamp`: the time of the block in which the
/// current call runs, in nanoseconds since the Unix epoch. It is whatever the
/// host reports, so nothing is claimed of it.
#[verifier::external_body]
pub(crate) fn block_timestamp() -> (timestamp: u64) {
    near_sdk::env::block_timestamp()
}

} // verus!
