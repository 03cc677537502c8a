//! The sync state kept beside (never inside) RTK's database.
use vstd::prelude::*;

verus! {

/// An instant in UTC: seconds since the Unix epoch and the nanoseconds after them.
#[derive(Clone, Copy, Debug, PartialEq, Eq)]
pub struct Timestamp {
    pub seconds: i64,
    pub nanos: u32,
}

/// The machine ID in use, and the checkpoint: the highest RTK command ID that
/// the server has acknowledged, and when it did.
#[derive(Clone, Debug)]
pub struct State {
    pub machine_id: Option<String>,
    pub last_synced_id: i64,
    pub last_synced_at: Option<Timestamp>,
}

impl Default for State {
    /// The state of a machine that has never synced.
    fn default() -> (s: State)
        ensures
            s.machine_id is None,
            s.last_synced_id == 0,
            s.last_synced_at is None,
    {
        State { machine_id: None, last_synced_id: 0, last_synced_at: None }
    }
}

} // verus!
