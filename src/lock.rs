//! The singleton lock record of a running server, and the decisions that rest on it.

use vstd::prelude::*;

use crate::host::{process_is_running, send_kill};
use crate::json::{entries_view, entry, field, get_field, lemma_entries_view_index, Json, JsonValue};

verus! {

/// The singleton record of a running server: its process id and the loopback port it
/// listens on.
#[derive(PartialEq, Eq, Structural, Clone, Copy, Debug)]
pub struct LockRecord {
    pub pid: u32,
    pub port: u16,
}

/// Why the lock record could not be had.
#[derive(PartialEq, Eq, Structural, Clone, Copy, Debug)]
pub enum LockError {
    /// No lock file.
    NotFound,
    /// The lock file does not hold a record.
    ParseError,
    /// The file system refused the read or write.
    IoError,
}

/// The JSON object of a record: `{"pid": .., "port": ..}`.
pub open spec fn lock_json(r: LockRecord) -> Json {
    Json::Object(seq![("pid"@, Json::Int(r.pid as int)), ("port"@, Json::Int(r.port as int))])
}

/// The record that a JSON value holds: an object whose `pid` fits a `u32` and whose
/// `port` fits a `u16`; other fields are ignored.
pub open spec fn lock_of_json(v: Json) -> Result<LockRecord, LockError> {
    match v {
        Json::Object(s) => match (field(s, "pid"@), field(s, "port"@)) {
            (Some(Json::Int(pid)), Some(Json::Int(port))) => if 0 <= pid <= u32::MAX && 0 <= port
                <= u16::MAX {
                Ok(LockRecord { pid: pid as u32, port: port as u16 })
            } else {
                Err(LockError::ParseError)
            },
            _ => Err(LockError::ParseError),
        },
        _ => Err(LockError::ParseError),
    }
}

/// A record reads back from its JSON object unchanged.
pub proof fn lemma_lock_round_trip(r: LockRecord)
    ensures
        lock_of_json(lock_json(r)) == Ok::<LockRecord, LockError>(r),
{
    reveal_strlit("pid");
    reveal_strlit("port");
    assert("pid"@.len() != "port"@.len());
    let s = lock_json(r)->Object_0;
    assert(s.drop_first().drop_first() =~= Seq::<(Seq<char>, Json)>::empty());
    assert(field(s, "pid"@) == Some(Json::Int(r.pid as int)));
    assert(field(s.drop_first(), "port"@) == Some(Json::Int(r.port as int)));
    assert(field(s, "port"@) == Some(Json::Int(r.port as int)));
}

/// Whether a server runs, from the record read (if any) and whether its process is live:
/// the record when its process is live, otherwise none. A stale record is not an error.
pub open spec fn lock_status_spec(record: Option<LockRecord>, alive: bool) -> Option<LockRecord> {
    match record {
        Some(r) => if alive {
            Some(r)
        } else {
            None
        },
        None => None,
    }
}

/// The record of a successful read.
pub open spec fn read_record(read: Result<LockRecord, LockError>) -> Option<LockRecord> {
    match read {
        Ok(r) => Some(r),
        Err(_) => None,
    }
}

/// A record whose process is live is reported as running; a record whose process is not in
/// the process table is reported as not running.
pub proof fn lemma_liveness_decides(r: LockRecord)
    ensures
        lock_status_spec(Some(r), true) == Some(r),
        lock_status_spec(Some(r), false) is None,
{
}

impl LockRecord {
    /// The JSON object of this record.
    pub fn to_json(&self) -> (v: JsonValue)
        ensures
            v@ == lock_json(*self),
    {
        let mut e: Vec<(String, JsonValue)> = Vec::new();
        e.push(entry("pid", JsonValue::Int(self.pid as i64)));
        e.push(entry("port", JsonValue::Int(self.port as i64)));
        proof {
            lemma_entries_view_index(e@);
            assert(entries_view(e@) =~= lock_json(*self)->Object_0);
        }
        JsonValue::Object(e)
    }

    /// Reads a record from a JSON value.
    pub fn from_json(v: &JsonValue) -> (r: Result<LockRecord, LockError>)
        ensures
            r == lock_of_json(v@),
    {
        match v {
            JsonValue::Object(entries) => {
                let pid = get_field(entries, &String::from_str("pid"));
                let port = get_field(entries, &String::from_str("port"));
                match (pid, port) {
                    (Some(JsonValue::Int(pid)), Some(JsonValue::Int(port))) => {
                        if 0 <= *pid && *pid <= u32::MAX as i64 && 0 <= *port && *port <= u16::MAX as i64 {
                            Ok(LockRecord { pid: *pid as u32, port: *port as u16 })
                        } else {
                            Err(LockError::ParseError)
                        }
                    },
                    _ => Err(LockError::ParseError),
                }
            },
            _ => Err(LockError::ParseError),
        }
    }
}

/// Whether a server runs, given the record read and whether its process is live.
pub fn lock_status(record: Option<LockRecord>, alive: bool) -> (r: Option<LockRecord>)
    ensures
        r == lock_status_spec(record, alive),
{
    match record {
        Some(rec) => if alive {
            Some(rec)
        } else {
            None
        },
        None => None,
    }
}

/// Whether a server runs, given the outcome of reading the lock file: the record when its
/// process is in the OS process table, otherwise none. The lock file is left as it is.
pub fn server_is_running(read: Result<LockRecord, LockError>) -> (r: Option<LockRecord>)
    ensures
        exists|alive: bool| #[trigger] lock_status_spec(read_record(read), alive) == r,
        r is Some ==> read == Ok::<LockRecord, LockError>(r->Some_0),
{
    match read {
        Ok(rec) => {
            let alive = process_is_running(rec.pid);
            let r = lock_status(Some(rec), alive);
            proof {
                assert(lock_status_spec(read_record(read), alive) == r);
            }
            r
        },
        Err(_) => {
            proof {
                assert(lock_status_spec(read_record(read), false) == None::<LockRecord>);
            }
            None
        },
    }
}

/// What `start` does.
#[derive(PartialEq, Eq, Structural, Clone, Copy, Debug)]
pub enum StartAction {
    /// A server already runs with this record: start nothing.
    AlreadyRunning(LockRecord),
    /// Launch a server in the background.
    Launch,
}

/// What `start` does, given the running server if any.
pub fn start_action(running: Option<LockRecord>) -> (a: StartAction)
    ensures
        match running {
            Some(r) => a == StartAction::AlreadyRunning(r),
            None => a == StartAction::Launch,
        },
{
    match running {
        Some(r) => StartAction::AlreadyRunning(r),
        None => StartAction::Launch,
    }
}

/// A start attempt made while another server's record is live starts nothing and reports
/// that server.
pub proof fn lemma_start_sees_winner(winner: LockRecord, a: StartAction)
    requires
        match lock_status_spec(Some(winner), true) {
            Some(r) => a == StartAction::AlreadyRunning(r),
            None => a == StartAction::Launch,
        },
    ensures
        a == StartAction::AlreadyRunning(winner),
{
}

/// What `stop` did. Every outcome but `NotRunning` asks for the lock file to be removed.
#[derive(PartialEq, Eq, Structural, Clone, Copy, Debug)]
pub enum StopOutcome {
    /// No record could be read; nothing was done.
    NotRunning,
    /// The record's process is not running: no signal was sent; the stale lock file is to be
    /// removed.
    StaleLock(LockRecord),
    /// The kill signal went to the server's process; the lock file is to be removed.
    Stopped(LockRecord),
    /// The server's process vanished or refused the signal; the lock file is to be removed.
    KillFailed(LockRecord),
}

/// The outcome of `stop` for the record read (if any), whether its process was live, and
/// what the kill signal did when one was sent (`None`: the process was not found).
pub open spec fn stop_outcome_spec(record: Option<LockRecord>, alive: bool, signal: Option<bool>) -> StopOutcome {
    match record {
        None => StopOutcome::NotRunning,
        Some(rec) => if !alive {
            StopOutcome::StaleLock(rec)
        } else if signal == Some(true) {
            StopOutcome::Stopped(rec)
        } else {
            StopOutcome::KillFailed(rec)
        },
    }
}

/// The outcome of `stop` (see `stop_outcome_spec`).
pub fn stop_outcome(record: Option<LockRecord>, alive: bool, signal: Option<bool>) -> (r: StopOutcome)
    ensures
        r == stop_outcome_spec(record, alive, signal),
{
    match record {
        None => StopOutcome::NotRunning,
        Some(rec) => if !alive {
            StopOutcome::StaleLock(rec)
        } else {
            match signal {
                Some(true) => StopOutcome::Stopped(rec),
                _ => StopOutcome::KillFailed(rec),
            }
        },
    }
}

/// Stops the server of the lock record read, if any: a live process gets the kill signal; a
/// stale record gets no signal. The caller removes the lock file unless the outcome is
/// `NotRunning`.
pub fn stop_server(read: Result<LockRecord, LockError>) -> (r: StopOutcome)
    ensures
        exists|alive: bool, signal: Option<bool>|
            r == #[trigger] stop_outcome_spec(read_record(read), alive, signal),
        read is Err ==> r == StopOutcome::NotRunning,
{
    match read {
        Err(_) => {
            let r = stop_outcome(None, false, None);
            proof {
                assert(r == stop_outcome_spec(read_record(read), false, None));
            }
            r
        },
        Ok(rec) => {
            let alive = process_is_running(rec.pid);
            let signal = if alive {
                send_kill(rec.pid)
            } else {
                None
            };
            let r = stop_outcome(Some(rec), alive, signal);
            proof {
                assert(r == stop_outcome_spec(read_record(read), alive, signal));
            }
            r
        },
    }
}

/// An explicit stop of a stale record sends no signal and asks for the lock file to be
/// removed.
pub proof fn lemma_stop_removes_stale(rec: LockRecord, signal: Option<bool>)
    ensures
        stop_outcome_spec(Some(rec), false, signal) == StopOutcome::StaleLock(rec),
{
}

} // verus!
