//! One sync batch as a state machine, and the decisions of the sync loops.
//!
//! A batch loads the state, settles the machine ID, makes sure a state file
//! exists, fetches the events after the checkpoint, uploads them and, only
//! when the server acknowledges an ID past the checkpoint, moves the
//! checkpoint there.  `BatchRun::step` makes each decision; the caller
//! performs the action it returns and reports the outcome as the next event.
use vstd::prelude::*;
use crate::client::UploadResult;
use crate::config::SyncConfig;
use crate::env::view_opt;
use crate::machine::{resolve_machine_id, resolve_spec, HostFacts, MachineError};
use crate::rtkdb::{RowError, RtkEvent};
use crate::state::{State, Timestamp};
use crate::text::{chars_of, push_range, to_string};
use vstd::string::*;

verus! {

/// Why a batch failed.  Failures of the caller's own work carry its message.
#[derive(Clone, Debug)]
pub enum SyncError {
    /// The state file could not be read.
    StateLoad(String),
    /// The state file could not be written.
    StateSave(String),
    /// No machine ID could be had.
    Machine(MachineError),
    /// RTK's database could not be opened or queried.
    Database(String),
    /// A row of RTK's database could not be turned into an event.
    Rows(RowError),
    /// The dry-run events could not be printed.
    DryRunReport(String),
    /// The upload failed.
    Upload(String),
    /// The server acknowledged no ID past the checkpoint.
    CheckpointNotAdvanced { max_local_id: i64, checkpoint: i64 },
    /// An event arrived that the batch was not waiting for.
    OutOfOrder,
}

/// Where a batch stands: what it waits for next.
#[derive(Clone, Copy, Debug, PartialEq, Eq, Structural)]
pub enum BatchPhase {
    Start,
    AwaitState,
    AwaitStateFileCheck,
    AwaitInitialSave,
    AwaitEvents,
    AwaitDryRunReport,
    AwaitUpload,
    AwaitCheckpointSave,
    Done,
}

/// The outcome of the work that the last action asked for.
#[derive(Debug)]
pub enum BatchEvent {
    /// Nothing has happened yet.
    Begin,
    /// The state file was read (a missing file reads as the default state).
    StateLoaded(Result<State, SyncError>),
    /// Whether the state file exists.
    StateFileChecked(bool),
    /// The state file was written.
    StateSaved(Result<(), SyncError>),
    /// The events after the checkpoint were fetched from RTK's database.
    EventsFetched(Result<Vec<RtkEvent>, SyncError>),
    /// The dry-run events were printed.
    DryRunReported(Result<(), SyncError>),
    /// The upload's answer, and when it came.
    Uploaded { result: Result<UploadResult, SyncError>, finished_at: Timestamp },
}

/// The work the batch asks for next.
#[derive(Debug)]
pub enum BatchAction {
    /// Read the state file.
    LoadState { path: String },
    /// Tell whether the state file exists.
    CheckStateFile { path: String },
    /// Write `state` to the state file.
    SaveState { path: String, state: State },
    /// Fetch at most `limit` events with an ID above `after_id`, in ID order.
    FetchEvents { db_path: String, after_id: i64, limit: usize, machine_id: String },
    /// Print the events that a real run would upload.
    ReportDryRun { events: Vec<RtkEvent> },
    /// Upload the events.
    Upload { endpoint: String, token: String, machine_id: String, events: Vec<RtkEvent> },
    /// The batch is over: whether the batch was full (so more events may
    /// wait), or why it failed.
    Finish(Result<bool, SyncError>),
}

/// One sync batch in progress.
#[derive(Clone, Debug)]
pub struct BatchRun {
    pub config: SyncConfig,
    pub host: HostFacts,
    pub phase: BatchPhase,
    /// The state as loaded, with the machine ID settled.
    pub state: State,
    pub machine_id: String,
    /// The checkpoint that the state held when it was loaded.
    pub checkpoint: i64,
    /// How many events were handed to the upload.
    pub fetched: usize,
}

/// A copy of `s`.
pub fn copy_state(s: &State) -> (r: State)
    ensures
        view_opt(r.machine_id) == view_opt(s.machine_id),
        r.last_synced_id == s.last_synced_id,
        r.last_synced_at == s.last_synced_at,
{
    State {
        machine_id: s.machine_id.clone(),
        last_synced_id: s.last_synced_id,
        last_synced_at: s.last_synced_at,
    }
}

impl BatchRun {
    /// The run is consistent with what it has done: a dry run never waits on a
    /// state write or an upload; until the checkpoint is moved, the state
    /// still holds the checkpoint it was loaded with, and the settled machine
    /// ID is the one the state holds.
    pub open spec fn wf(&self) -> bool {
        &&& self.config.dry_run ==> (self.phase != BatchPhase::AwaitStateFileCheck
            && self.phase != BatchPhase::AwaitInitialSave && self.phase != BatchPhase::AwaitUpload
            && self.phase != BatchPhase::AwaitCheckpointSave)
        &&& (self.phase == BatchPhase::Start || self.phase == BatchPhase::AwaitState) ==> self.checkpoint == self.state.last_synced_id
        &&& (self.phase == BatchPhase::AwaitStateFileCheck || self.phase == BatchPhase::AwaitInitialSave
            || self.phase == BatchPhase::AwaitEvents || self.phase == BatchPhase::AwaitDryRunReport
            || self.phase == BatchPhase::AwaitUpload) ==> {
            &&& self.checkpoint == self.state.last_synced_id
            &&& view_opt(self.state.machine_id) == Some(self.machine_id@)
        }
    }

    /// A batch that has not started.
    pub fn new(config: SyncConfig, host: HostFacts) -> (r: BatchRun)
        ensures
            r.wf(),
            r.config == config,
            r.host == host,
            r.phase == BatchPhase::Start,
            r.state.machine_id is None,
            r.state.last_synced_id == 0,
            r.state.last_synced_at is None,
            r.machine_id@ == Seq::<char>::empty(),
            r.checkpoint == 0,
            r.fetched == 0,
    {
        BatchRun {
            config,
            host,
            phase: BatchPhase::Start,
            state: State { machine_id: None, last_synced_id: 0, last_synced_at: None },
            machine_id: String::new(),
            checkpoint: 0,
            fetched: 0,
        }
    }

    fn fetch_action(&self) -> (a: BatchAction)
        ensures
            a matches BatchAction::FetchEvents { db_path, after_id, limit, machine_id } && db_path@
                == self.config.db_path@ && after_id == self.checkpoint && limit == self.config.batch_size
                && machine_id@ == self.machine_id@,
    {
        BatchAction::FetchEvents {
            db_path: self.config.db_path.clone(),
            after_id: self.checkpoint,
            limit: self.config.batch_size,
            machine_id: self.machine_id.clone(),
        }
    }

    fn finish(&mut self, outcome: Result<bool, SyncError>) -> (a: BatchAction)
        ensures
            a == BatchAction::Finish(outcome),
            final(self).phase == BatchPhase::Done,
            final(self).config == old(self).config,
            final(self).host == old(self).host,
            final(self).state == old(self).state,
            final(self).machine_id == old(self).machine_id,
            final(self).checkpoint == old(self).checkpoint,
            final(self).fetched == old(self).fetched,
    {
        self.phase = BatchPhase::Done;
        BatchAction::Finish(outcome)
    }

    /// Takes the outcome of the last action and returns the next one.
    ///
    /// The checkpoint that a `SaveState` writes is the loaded one, except
    /// after an upload whose answer names an ID past it, which becomes the
    /// new checkpoint.  A dry run never uploads and never writes the state.
    pub fn step(&mut self, event: BatchEvent) -> (action: BatchAction)
        requires
            old(self).wf(),
        ensures
            final(self).wf(),
            final(self).config == old(self).config,
            final(self).host == old(self).host,
            // The checkpoint, the settled machine ID and the loaded state are
            // fixed when the state loads, and kept by every later step.
            old(self).phase != BatchPhase::AwaitState ==> {
                &&& final(self).checkpoint == old(self).checkpoint
                &&& final(self).machine_id@ == old(self).machine_id@
                &&& final(self).state == old(self).state
            },
            // The number of events handed to the upload is fixed when they are fetched.
            old(self).phase != BatchPhase::AwaitEvents ==> final(self).fetched == old(self).fetched,
            action is Finish <==> final(self).phase == BatchPhase::Done,
            // A dry run neither uploads nor writes the state file.
            old(self).config.dry_run ==> !(action is Upload) && !(action is SaveState),
            // The checkpoint moves only on an upload answer past it, and only there.
            action matches BatchAction::SaveState { path, state } ==> {
                &&& path@ == old(self).config.state_path@
                &&& (state.last_synced_id == old(self).checkpoint
                    || (old(self).phase == BatchPhase::AwaitUpload
                        && (event matches BatchEvent::Uploaded { result: Ok(answer), .. }
                        && answer.max_local_id > old(self).checkpoint
                        && state.last_synced_id == answer.max_local_id)))
            },
            // A failed upload ends the batch with its error.
            old(self).phase == BatchPhase::AwaitUpload ==> (event matches BatchEvent::Uploaded { result: Err(e), .. }
                ==> action == BatchAction::Finish(Err(e))),
            // What each phase does with the event it waits for.
            old(self).phase == BatchPhase::Start && event is Begin ==> final(self).phase == BatchPhase::AwaitState
                && (action matches BatchAction::LoadState { path } && path@ == old(self).config.state_path@),
            old(self).phase == BatchPhase::AwaitState ==> (event matches BatchEvent::StateLoaded(Err(e)) ==> action
                == BatchAction::Finish(Err(e))),
            old(self).phase == BatchPhase::AwaitState ==> (event matches BatchEvent::StateLoaded(Ok(loaded)) ==> {
                let (res, stored) = resolve_spec(view_opt(old(self).config.machine_id), view_opt(loaded.machine_id), old(self).host);
                &&& (res matches Err(e) ==> action == BatchAction::Finish(Err(SyncError::Machine(e))))
                &&& (res matches Ok(id) ==> {
                    &&& final(self).machine_id@ == id
                    &&& final(self).checkpoint == loaded.last_synced_id
                    &&& final(self).state.last_synced_id == loaded.last_synced_id
                    &&& final(self).state.last_synced_at == loaded.last_synced_at
                    &&& view_opt(final(self).state.machine_id) == stored
                    &&& (!old(self).config.dry_run ==> final(self).phase == BatchPhase::AwaitStateFileCheck
                        && (action matches BatchAction::CheckStateFile { path } && path@ == old(self).config.state_path@))
                    &&& (old(self).config.dry_run ==> final(self).phase == BatchPhase::AwaitEvents
                        && (action matches BatchAction::FetchEvents { db_path, after_id, limit, machine_id }
                        && db_path@ == old(self).config.db_path@ && after_id == loaded.last_synced_id
                        && limit == old(self).config.batch_size && machine_id@ == id))
                })
            }),
            old(self).phase == BatchPhase::AwaitStateFileCheck ==> (event matches BatchEvent::StateFileChecked(exists) ==> {
                &&& (!exists ==> final(self).phase == BatchPhase::AwaitInitialSave && (action matches BatchAction::SaveState { state, .. }
                    && view_opt(state.machine_id) == view_opt(old(self).state.machine_id)
                    && state.last_synced_id == old(self).state.last_synced_id
                    && state.last_synced_at == old(self).state.last_synced_at))
                &&& (exists ==> final(self).phase == BatchPhase::AwaitEvents
                    && (action matches BatchAction::FetchEvents { db_path, after_id, limit, machine_id }
                    && db_path@ == old(self).config.db_path@ && after_id == old(self).checkpoint
                    && limit == old(self).config.batch_size && machine_id@ == old(self).machine_id@))
            }),
            old(self).phase == BatchPhase::AwaitInitialSave ==> (event matches BatchEvent::StateSaved(saved) ==> {
                &&& (saved matches Err(e) ==> action == BatchAction::Finish(Err(e)))
                &&& (saved is Ok ==> final(self).phase == BatchPhase::AwaitEvents
                    && (action matches BatchAction::FetchEvents { db_path, after_id, limit, machine_id }
                    && db_path@ == old(self).config.db_path@ && after_id == old(self).checkpoint
                    && limit == old(self).config.batch_size && machine_id@ == old(self).machine_id@))
            }),
            old(self).phase == BatchPhase::AwaitEvents ==> (event matches BatchEvent::EventsFetched(fetched) ==> {
                &&& (fetched matches Err(e) ==> action == BatchAction::Finish(Err(e)))
                &&& (fetched matches Ok(events) ==> {
                    &&& (events.len() == 0 ==> action == BatchAction::Finish(Ok(false)))
                    &&& (events.len() > 0 && old(self).config.dry_run ==> final(self).phase
                        == BatchPhase::AwaitDryRunReport && action == BatchAction::ReportDryRun { events })
                    &&& (events.len() > 0 && !old(self).config.dry_run ==> {
                        &&& final(self).phase == BatchPhase::AwaitUpload
                        &&& final(self).fetched == events.len()
                        &&& action matches BatchAction::Upload { endpoint, token, machine_id, events: sent }
                        &&& endpoint@ == old(self).config.endpoint@ && token@ == old(self).config.token@
                        &&& machine_id@ == old(self).machine_id@ && sent == events
                    })
                })
            }),
            old(self).phase == BatchPhase::AwaitDryRunReport ==> (event matches BatchEvent::DryRunReported(reported) ==> {
                &&& (reported matches Err(e) ==> action == BatchAction::Finish(Err(e)))
                &&& (reported is Ok ==> action == BatchAction::Finish(Ok(false)))
            }),
            old(self).phase == BatchPhase::AwaitUpload ==> (event matches BatchEvent::Uploaded { result: Ok(answer), finished_at } ==> {
                &&& (answer.max_local_id <= old(self).checkpoint ==> action == BatchAction::Finish(Err(
                    SyncError::CheckpointNotAdvanced { max_local_id: answer.max_local_id, checkpoint: old(self).checkpoint },
                )))
                &&& (answer.max_local_id > old(self).checkpoint ==> {
                    &&& final(self).phase == BatchPhase::AwaitCheckpointSave
                    &&& action matches BatchAction::SaveState { state, .. }
                    &&& state.last_synced_id == answer.max_local_id
                    &&& state.last_synced_at == Some(finished_at)
                    &&& view_opt(state.machine_id) == view_opt(old(self).state.machine_id)
                })
            }),
            old(self).phase == BatchPhase::AwaitCheckpointSave ==> (event matches BatchEvent::StateSaved(saved) ==> {
                &&& (saved matches Err(e) ==> action == BatchAction::Finish(Err(e)))
                &&& (saved is Ok ==> action == BatchAction::Finish(Ok(old(self).fetched == old(self).config.batch_size)))
            }),
            // Any other event is out of order and ends the batch.
            !((old(self).phase == BatchPhase::Start && event is Begin)
                || (old(self).phase == BatchPhase::AwaitState && event is StateLoaded)
                || (old(self).phase == BatchPhase::AwaitStateFileCheck && event is StateFileChecked)
                || (old(self).phase == BatchPhase::AwaitInitialSave && event is StateSaved)
                || (old(self).phase == BatchPhase::AwaitEvents && event is EventsFetched)
                || (old(self).phase == BatchPhase::AwaitDryRunReport && event is DryRunReported)
                || (old(self).phase == BatchPhase::AwaitUpload && event is Uploaded)
                || (old(self).phase == BatchPhase::AwaitCheckpointSave && event is StateSaved))
                ==> action == BatchAction::Finish(Err(SyncError::OutOfOrder)),
    {
        match (self.phase, event) {
            (BatchPhase::Start, BatchEvent::Begin) => {
                self.phase = BatchPhase::AwaitState;
                BatchAction::LoadState { path: self.config.state_path.clone() }
            },
            (BatchPhase::AwaitState, BatchEvent::StateLoaded(loaded)) => {
                match loaded {
                    Err(e) => self.finish(Err(e)),
                    Ok(loaded) => {
                        let mut state = loaded;
                        let cli: Option<&str> = match &self.config.machine_id {
                            Some(m) => Some(m.as_str()),
                            None => None,
                        };
                        match resolve_machine_id(cli, &mut state, &self.host) {
                            Err(e) => self.finish(Err(SyncError::Machine(e))),
                            Ok(id) => {
                                self.checkpoint = state.last_synced_id;
                                let settled: bool = match &state.machine_id {
                                    Some(m) => crate::text::str_eq(m.as_str(), id.as_str()),
                                    None => false,
                                };
                                self.state = state;
                                self.machine_id = id;
                                if !self.config.dry_run && settled {
                                    self.phase = BatchPhase::AwaitStateFileCheck;
                                    BatchAction::CheckStateFile { path: self.config.state_path.clone() }
                                } else {
                                    self.phase = BatchPhase::AwaitEvents;
                                    self.fetch_action()
                                }
                            },
                        }
                    },
                }
            },
            (BatchPhase::AwaitStateFileCheck, BatchEvent::StateFileChecked(exists)) => {
                if !exists {
                    self.phase = BatchPhase::AwaitInitialSave;
                    BatchAction::SaveState {
                        path: self.config.state_path.clone(),
                        state: copy_state(&self.state),
                    }
                } else {
                    self.phase = BatchPhase::AwaitEvents;
                    self.fetch_action()
                }
            },
            (BatchPhase::AwaitInitialSave, BatchEvent::StateSaved(saved)) => {
                match saved {
                    Err(e) => self.finish(Err(e)),
                    Ok(()) => {
                        self.phase = BatchPhase::AwaitEvents;
                        self.fetch_action()
                    },
                }
            },
            (BatchPhase::AwaitEvents, BatchEvent::EventsFetched(fetched)) => {
                match fetched {
                    Err(e) => self.finish(Err(e)),
                    Ok(events) => {
                        if events.len() == 0 {
                            self.finish(Ok(false))
                        } else if self.config.dry_run {
                            self.phase = BatchPhase::AwaitDryRunReport;
                            BatchAction::ReportDryRun { events }
                        } else {
                            self.phase = BatchPhase::AwaitUpload;
                            self.fetched = events.len();
                            BatchAction::Upload {
                                endpoint: self.config.endpoint.clone(),
                                token: self.config.token.clone(),
                                machine_id: self.machine_id.clone(),
                                events,
                            }
                        }
                    },
                }
            },
            (BatchPhase::AwaitDryRunReport, BatchEvent::DryRunReported(reported)) => {
                match reported {
                    Err(e) => self.finish(Err(e)),
                    Ok(()) => self.finish(Ok(false)),
                }
            },
            (BatchPhase::AwaitUpload, BatchEvent::Uploaded { result, finished_at }) => {
                match result {
                    Err(e) => self.finish(Err(e)),
                    Ok(answer) => {
                        if answer.max_local_id <= self.checkpoint {
                            let checkpoint: i64 = self.checkpoint;
                            self.finish(
                                Err(
                                    SyncError::CheckpointNotAdvanced {
                                        max_local_id: answer.max_local_id,
                                        checkpoint,
                                    },
                                ),
                            )
                        } else {
                            let mut state = copy_state(&self.state);
                            state.last_synced_id = answer.max_local_id;
                            state.last_synced_at = Some(finished_at);
                            self.phase = BatchPhase::AwaitCheckpointSave;
                            BatchAction::SaveState { path: self.config.state_path.clone(), state }
                        }
                    },
                }
            },
            (BatchPhase::AwaitCheckpointSave, BatchEvent::StateSaved(saved)) => {
                match saved {
                    Err(e) => self.finish(Err(e)),
                    Ok(()) => {
                        let full: bool = self.fetched == self.config.batch_size;
                        self.finish(Ok(full))
                    },
                }
            },
            (_, _) => self.finish(Err(SyncError::OutOfOrder)),
        }
    }
}

/// How a token appears in logs: `<unset>` when empty, `***` when it has at
/// most eight characters, else its first four characters, `***` and its last four.
pub open spec fn mask_token_spec(token: Seq<char>) -> Seq<char> {
    if token.len() == 0 {
        "<unset>"@
    } else if token.len() <= 8 {
        "***"@
    } else {
        token.subrange(0, 4) + "***"@ + token.subrange(token.len() - 4, token.len() as int)
    }
}

/// The token as it may appear in logs (see `mask_token_spec`).
pub fn mask_token(token: &str) -> (r: String)
    ensures
        r@ == mask_token_spec(token@),
{
    let chars = chars_of(token);
    if chars.len() == 0 {
        return to_string("<unset>");
    }
    if chars.len() <= 8 {
        return to_string("***");
    }
    let mut s = String::new();
    push_range(&mut s, &chars, 0, 4);
    s.append("***");
    push_range(&mut s, &chars, chars.len() - 4, chars.len());
    assert(s@ =~= mask_token_spec(token@));
    s
}

/// A token that is not empty and holds no `*` never appears whole in its
/// masked form: logs do not reveal such a token.
pub proof fn lemma_mask_hides_token(token: Seq<char>)
    requires
        token.len() > 0,
        forall|i: int| 0 <= i < token.len() ==> token[i] != '*',
    ensures
        mask_token_spec(token) != token,
{
    reveal_strlit("***");
    if token.len() <= 8 {
        assert(mask_token_spec(token)[0] == '*');
    } else {
        let m = mask_token_spec(token);
        assert(m.len() == 11);
        if token.len() == 11 {
            assert(m[4] == '*');
            assert(token[4] != '*');
        }
    }
}

/// The endpoint as it appears in logs: `<unset>` when empty.
pub fn display_endpoint(endpoint: &str) -> (r: &str)
    ensures
        r@ == (if endpoint@.len() == 0 { "<unset>"@ } else { endpoint@ }),
{
    if endpoint.is_empty() {
        "<unset>"
    } else {
        endpoint
    }
}

/// Within one service interval, batches follow each other while the last one
/// succeeded and was full; an empty or partial batch, or a failure, ends the interval.
pub fn continue_interval(outcome: &Result<bool, SyncError>) -> (r: bool)
    ensures
        r <==> (*outcome matches Ok(full) && full),
{
    match outcome {
        Ok(full) => *full,
        Err(_) => false,
    }
}

/// Seconds until the next service interval: the interval of the reloaded
/// configuration, or the previous one when no configuration could be loaded.
pub fn daemon_interval(reloaded: Option<&SyncConfig>, fallback: u64) -> (r: u64)
    ensures
        r == (match reloaded {
            Some(c) => c.interval,
            None => fallback,
        }),
{
    match reloaded {
        Some(c) => c.interval,
        None => fallback,
    }
}

} // verus!
