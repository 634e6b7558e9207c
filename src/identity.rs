//! Identifiers and timestamps of stored entities, held as plain integers.
use vstd::prelude::*;

verus! {

/// A 128-bit identifier, the value of a UUID read as a big-endian integer.
#[derive(Clone, Copy, Debug, PartialEq, Eq, Structural, Hash)]
pub struct EntityId {
    pub value: u128,
}

pub type PartId = EntityId;

pub type ProjectId = EntityId;

/// A local wall-clock time without offset: microseconds since 1970-01-01 00:00:00.
#[derive(Clone, Copy, Debug, PartialEq, Eq, Structural, Hash)]
pub struct Timestamp {
    pub micros: i64,
}

/// The version field of a UUID: bits 76 to 79 of its value.
pub open spec fn uuid_version(id: EntityId) -> u128 {
    (id.value >> 76u128) & 0xfu128
}

/// Relies on uuid's `Uuid::now_v7` (and `Uuid::as_u128`): a new version 7 UUID, ordered by
/// creation time within this process.
#[verifier::external_body]
pub(crate) fn new_time_ordered_id() -> (r: EntityId)
    ensures
        uuid_version(r) == 7,
{
    EntityId { value: uuid::Uuid::now_v7().as_u128() }
}

/// Relies on chrono's `Local::now`: the current local time, read without its offset.
#[verifier::external_body]
pub(crate) fn local_now() -> (r: Timestamp) {
    Timestamp { micros: chrono::Local::now().naive_local().and_utc().timestamp_micros() }
}

} // verus!
