//! The session table and manager: the concurrency-safe core of the
//! multiplexer, verified as a sequential value. The embedding shell owns
//! one `SessionManager` behind its own lock and calls these methods while
//! holding it; every rule of the table is stated here and proved.

use vstd::prelude::*;

use crate::args;
use crate::errors::SessionError;
use crate::pty;

verus! {

/// The lifecycle state of one session. The transition is one-directional:
/// `Running` to `Exited`, never back.
#[derive(Clone, Copy, Debug, PartialEq, Eq, Structural)]
pub enum SessionStatus {
    Running,
    Exited,
}

/// One tracked session: its identity, its metadata, and the exclusively
/// owned transport handles of the child process.
pub struct SessionHandle {
    /// The unique identifier the session is addressed by.
    pub session_id: String,
    /// The owning task, an opaque foreign reference.
    pub task_id: i32,
    /// The owning project, an opaque foreign reference.
    pub project_id: i32,
    /// The working directory the child was started in.
    pub working_dir: String,
    /// The child's operating-system process id, when the platform
    /// reports one.
    pub pid: Option<u32>,
    /// Monotonic stamp taken at spawn time, for uptime.
    pub started_at: std::time::Instant,
    /// Wall-clock seconds since the epoch at spawn time, for display.
    pub started_at_epoch: u64,
    /// The current lifecycle state.
    pub status: SessionStatus,
    transport: pty::PtyTransport,
    reader_taken: bool,
}

/// The mathematical image of one session: every field the table's rules
/// speak of. The transport handles carry no rules and do not appear.
#[verifier::ext_equal]
pub struct SessionView {
    pub session_id: Seq<char>,
    pub task_id: i32,
    pub project_id: i32,
    pub working_dir: Seq<char>,
    pub pid: Option<u32>,
    pub started_at_epoch: u64,
    pub status: SessionStatus,
    pub reader_taken: bool,
}

impl View for SessionHandle {
    type V = SessionView;

    closed spec fn view(&self) -> SessionView {
        SessionView {
            session_id: self.session_id@,
            task_id: self.task_id,
            project_id: self.project_id,
            working_dir: self.working_dir@,
            pid: self.pid,
            started_at_epoch: self.started_at_epoch,
            status: self.status,
            reader_taken: self.reader_taken,
        }
    }
}

/// A read-only projection of one session, as `list` hands it out.
#[derive(Clone, Debug)]
pub struct SessionInfo {
    pub session_id: String,
    pub task_id: i32,
    pub project_id: i32,
    pub pid: Option<u32>,
    pub uptime_secs: u64,
    pub started_at_epoch: u64,
    pub status: String,
    pub working_dir: String,
}

/// The mathematical image of a session snapshot.
#[verifier::ext_equal]
pub struct SessionInfoView {
    pub session_id: Seq<char>,
    pub task_id: i32,
    pub project_id: i32,
    pub pid: Option<u32>,
    pub uptime_secs: u64,
    pub started_at_epoch: u64,
    pub status: Seq<char>,
    pub working_dir: Seq<char>,
}

impl View for SessionInfo {
    type V = SessionInfoView;

    open spec fn view(&self) -> SessionInfoView {
        SessionInfoView {
            session_id: self.session_id@,
            task_id: self.task_id,
            project_id: self.project_id,
            pid: self.pid,
            uptime_secs: self.uptime_secs,
            started_at_epoch: self.started_at_epoch,
            status: self.status@,
            working_dir: self.working_dir@,
        }
    }
}

/// Whether some entry of the table carries the given identifier.
pub open spec fn contains_id(t: Seq<SessionView>, id: Seq<char>) -> bool {
    exists|i: int| 0 <= i < t.len() && t[i].session_id == id
}

/// The index of the entry carrying the given identifier; meaningful when
/// `contains_id` holds and the identifiers are distinct.
pub open spec fn id_index(t: Seq<SessionView>, id: Seq<char>) -> int {
    choose|i: int| 0 <= i < t.len() && t[i].session_id == id
}

/// Identifiers are unique within the table: no two entries share one.
pub open spec fn distinct_ids(t: Seq<SessionView>) -> bool {
    forall|i: int, j: int| 0 <= i < j < t.len() ==> t[i].session_id != t[j].session_id
}

/// The given view with its status forced to `Exited`; all other fields
/// kept.
pub open spec fn with_exited(v: SessionView) -> SessionView {
    SessionView {
        session_id: v.session_id,
        task_id: v.task_id,
        project_id: v.project_id,
        working_dir: v.working_dir,
        pid: v.pid,
        started_at_epoch: v.started_at_epoch,
        status: SessionStatus::Exited,
        reader_taken: v.reader_taken,
    }
}

/// The given view with its reader latch set; all other fields kept.
pub open spec fn with_reader_taken(v: SessionView) -> SessionView {
    SessionView {
        session_id: v.session_id,
        task_id: v.task_id,
        project_id: v.project_id,
        working_dir: v.working_dir,
        pid: v.pid,
        started_at_epoch: v.started_at_epoch,
        status: v.status,
        reader_taken: true,
    }
}

/// The status string a snapshot reports for each lifecycle state.
pub open spec fn status_label(s: SessionStatus) -> Seq<char> {
    if s is Running {
        "running"@
    } else {
        "exited"@
    }
}

/// Whether one snapshot faithfully reports one table entry; the uptime
/// is a clock reading and carries no rule.
pub open spec fn reflects(info: SessionInfoView, v: SessionView) -> bool {
    &&& info.session_id == v.session_id
    &&& info.task_id == v.task_id
    &&& info.project_id == v.project_id
    &&& info.pid == v.pid
    &&& info.started_at_epoch == v.started_at_epoch
    &&& info.status == status_label(v.status)
    &&& info.working_dir == v.working_dir
}

/// The session table and the public API above it. The table owns the
/// lifetime of every active session; entries leave it only through
/// `remove`.
pub struct SessionManager {
    sessions: Vec<SessionHandle>,
}

impl View for SessionManager {
    type V = Seq<SessionView>;

    closed spec fn view(&self) -> Seq<SessionView> {
        self.sessions@.map_values(|h: SessionHandle| h@)
    }
}

/// Hands out a mutable borrow of one table entry, relating the final
/// table to the final borrow.
fn handle_at(v: &mut Vec<SessionHandle>, i: usize) -> (h: &mut SessionHandle)
    requires
        i < old(v).len(),
    ensures
        *h == old(v)@[i as int],
        final(v)@ == old(v)@.update(i as int, *final(h)),
{
    &mut v[i]
}

impl SessionManager {
    /// Well-formedness of the table: session identifiers are unique.
    /// `new` establishes it and every operation preserves it.
    pub open spec fn wf(&self) -> bool {
        distinct_ids(self@)
    }

    /// An empty table.
    pub fn new() -> (r: SessionManager)
        ensures
            r@.len() == 0,
            r.wf(),
    {
        SessionManager { sessions: Vec::new() }
    }

    /// The index of the entry with the given identifier, if any.
    fn find(&self, session_id: &str) -> (r: Option<usize>)
        ensures
            r matches Some(i) ==> i < self@.len() && self@[i as int].session_id == session_id@,
            r is None ==> !contains_id(self@, session_id@),
    {
        let n = self.sessions.len();
        let mut i: usize = 0;
        while i < n
            invariant
                n == self@.len(),
                i <= n,
                forall|j: int| 0 <= j < i ==> self@[j].session_id != session_id@,
            decreases n - i,
        {
            if pty::str_eq(self.sessions[i].session_id.as_str(), session_id) {
                return Some(i);
            }
            i += 1;
        }
        None
    }

    /// Writes then flushes the given bytes on the session's input
    /// writer. The table itself never changes; an unknown identifier is
    /// `NotFound`, a transport failure on a live session is `IOError`.
    pub fn write(&mut self, session_id: &str, data: &[u8]) -> (r: Result<(), SessionError>)
        ensures
            final(self)@ == old(self)@,
            ((r matches Err(e) && e is NotFound) <==> !contains_id(old(self)@, session_id@)),
            r matches Err(e) ==> e is NotFound || e is IOError,
    {
        let i = match self.find(session_id) {
            Some(i) => i,
            None => {
                return Err(SessionError::NotFound);
            },
        };
        let h = handle_at(&mut self.sessions, i);
        let res: Result<(), SessionError> = match pty::transport_write_all(&mut h.transport, data) {
            Ok(_) => {
                match pty::transport_flush(&mut h.transport) {
                    Ok(_) => Ok(()),
                    Err(m) => Err(SessionError::IOError(m)),
                }
            },
            Err(m) => Err(SessionError::IOError(m)),
        };
        proof {
            assert(self@ =~= old(self)@);
        }
        res
    }

    /// Forwards a new visible size to the session's transport. No table
    /// state changes; the error taxonomy is that of `write`.
    pub fn resize(&self, session_id: &str, rows: u16, cols: u16) -> (r: Result<(), SessionError>)
        ensures
            ((r matches Err(e) && e is NotFound) <==> !contains_id(self@, session_id@)),
            r matches Err(e) ==> e is NotFound || e is IOError,
    {
        let i = match self.find(session_id) {
            Some(i) => i,
            None => {
                return Err(SessionError::NotFound);
            },
        };
        match pty::transport_resize(&self.sessions[i].transport, rows, cols) {
            Ok(_) => Ok(()),
            Err(m) => Err(SessionError::IOError(m)),
        }
    }

    /// Sends a best-effort termination signal to the session's child and
    /// marks the session `Exited` whether or not the signal delivery
    /// reported success: a child that already exited is not an error.
    /// Fails with `NotFound` only.
    pub fn kill(&mut self, session_id: &str) -> (r: Result<(), SessionError>)
        requires
            old(self).wf(),
        ensures
            final(self).wf(),
            !contains_id(old(self)@, session_id@) ==> (r matches Err(e) && e is NotFound
                && final(self)@ == old(self)@),
            contains_id(old(self)@, session_id@) ==> r is Ok && final(self)@ == old(self)@.update(
                id_index(old(self)@, session_id@),
                with_exited(old(self)@[id_index(old(self)@, session_id@)]),
            ),
    {
        let i = match self.find(session_id) {
            Some(i) => i,
            None => {
                return Err(SessionError::NotFound);
            },
        };
        let h = handle_at(&mut self.sessions, i);
        let _ = pty::transport_kill(&mut h.transport);
        h.status = SessionStatus::Exited;
        proof {
            let ghost t = old(self)@;
            let ghost j = id_index(t, session_id@);
            assert(t[j].session_id == session_id@);
            assert(j == i as int);
            assert(self@ =~= t.update(j, with_exited(t[j])));
        }
        Ok(())
    }

    /// Idempotent status transition invoked by the streaming pump when
    /// the output stream ends; silently a no-op if the session was
    /// already removed.
    pub fn mark_exited(&mut self, session_id: &str)
        requires
            old(self).wf(),
        ensures
            final(self).wf(),
            !contains_id(old(self)@, session_id@) ==> final(self)@ == old(self)@,
            contains_id(old(self)@, session_id@) ==> final(self)@ == old(self)@.update(
                id_index(old(self)@, session_id@),
                with_exited(old(self)@[id_index(old(self)@, session_id@)]),
            ),
    {
        let i = match self.find(session_id) {
            Some(i) => i,
            None => {
                return ;
            },
        };
        let h = handle_at(&mut self.sessions, i);
        h.status = SessionStatus::Exited;
        proof {
            let ghost t = old(self)@;
            let ghost j = id_index(t, session_id@);
            assert(t[j].session_id == session_id@);
            assert(j == i as int);
            assert(self@ =~= t.update(j, with_exited(t[j])));
        }
    }

    /// Best-effort kills every session and marks all of them `Exited`;
    /// used at process-wide shutdown. On an empty table it is a no-op;
    /// it never fails.
    pub fn kill_all(&mut self)
        requires
            old(self).wf(),
        ensures
            final(self).wf(),
            final(self)@ == old(self)@.map_values(|v: SessionView| with_exited(v)),
    {
        let n = self.sessions.len();
        let mut i: usize = 0;
        while i < n
            invariant
                n == old(self)@.len(),
                i <= n,
                self@.len() == n,
                forall|j: int| 0 <= j < i ==> self@[j] == with_exited(old(self)@[j]),
                forall|j: int| i <= j < n ==> self@[j] == old(self)@[j],
            decreases n - i,
        {
            let ghost pre = self@;
            let h = handle_at(&mut self.sessions, i);
            let _ = pty::transport_kill(&mut h.transport);
            h.status = SessionStatus::Exited;
            proof {
                assert(self@ =~= pre.update(i as int, with_exited(pre[i as int])));
            }
            i += 1;
        }
        proof {
            assert(self@ =~= old(self)@.map_values(|v: SessionView| with_exited(v)));
            assert forall|a: int, b: int| 0 <= a < b < self@.len() implies self@[a].session_id
                != self@[b].session_id by {
                assert(old(self)@[a].session_id != old(self)@[b].session_id);
            }
        }
    }

    /// Hands out the session's output reader, exactly once per session:
    /// the latch is set on the first request, and any later request
    /// fails with `AlreadyTaken`. An unknown identifier is `NotFound`;
    /// a transport failure on the first request is `IOError`, and the
    /// latch stays set even then.
    pub fn take_reader(&mut self, session_id: &str) -> (r: Result<pty::PtyReader, SessionError>)
        requires
            old(self).wf(),
        ensures
            final(self).wf(),
            !contains_id(old(self)@, session_id@) ==> (r matches Err(e) && e is NotFound
                && final(self)@ == old(self)@),
            contains_id(old(self)@, session_id@) && old(self)@[id_index(
                old(self)@,
                session_id@,
            )].reader_taken ==> (r matches Err(e) && e is AlreadyTaken && final(self)@
                == old(self)@),
            contains_id(old(self)@, session_id@) && !old(self)@[id_index(
                old(self)@,
                session_id@,
            )].reader_taken ==> (r is Ok || (r matches Err(e) && e is IOError)) && final(self)@
                == old(self)@.update(
                id_index(old(self)@, session_id@),
                with_reader_taken(old(self)@[id_index(old(self)@, session_id@)]),
            ),
    {
        let i = match self.find(session_id) {
            Some(i) => i,
            None => {
                return Err(SessionError::NotFound);
            },
        };
        proof {
            let ghost t = old(self)@;
            let ghost j = id_index(t, session_id@);
            assert(t[j].session_id == session_id@);
            assert(j == i as int);
        }
        let h = handle_at(&mut self.sessions, i);
        if h.reader_taken {
            let res: Result<pty::PtyReader, SessionError> = Err(SessionError::AlreadyTaken);
            proof {
                assert(self@ =~= old(self)@);
            }
            return res;
        }
        h.reader_taken = true;
        let res: Result<pty::PtyReader, SessionError> = match pty::transport_clone_reader(
            &h.transport,
        ) {
            Ok(reader) => Ok(reader),
            Err(m) => Err(SessionError::IOError(m)),
        };
        proof {
            let ghost t = old(self)@;
            let ghost j = id_index(t, session_id@);
            assert(self@ =~= t.update(j, with_reader_taken(t[j])));
        }
        res
    }

    /// Deletes the table entry, dropping ownership of the session's
    /// transport handles (which closes them). Fails with `NotFound` if
    /// the identifier is absent; the table never self-prunes exited
    /// sessions otherwise.
    pub fn remove(&mut self, session_id: &str) -> (r: Result<(), SessionError>)
        requires
            old(self).wf(),
        ensures
            final(self).wf(),
            !contains_id(old(self)@, session_id@) ==> (r matches Err(e) && e is NotFound
                && final(self)@ == old(self)@),
            contains_id(old(self)@, session_id@) ==> r is Ok && final(self)@ == old(
                self,
            )@.remove(id_index(old(self)@, session_id@)),
    {
        let i = match self.find(session_id) {
            Some(i) => i,
            None => {
                return Err(SessionError::NotFound);
            },
        };
        let _ = self.sessions.remove(i);
        proof {
            let ghost t = old(self)@;
            let ghost j = id_index(t, session_id@);
            assert(t[j].session_id == session_id@);
            assert(j == i as int);
            assert(self@ =~= t.remove(j));
            assert forall|a: int, b: int| 0 <= a < b < self@.len() implies self@[a].session_id
                != self@[b].session_id by {
                let ghost aa = if a < j { a } else { a + 1 };
                let ghost bb = if b < j { b } else { b + 1 };
                assert(t[aa].session_id != t[bb].session_id);
            }
        }
        Ok(())
    }

    /// The currently known process ids, in table order, omitting
    /// sessions whose platform reported none; the read-only query the
    /// stats collaborator consumes.
    pub fn get_pids(&self) -> (r: Vec<u32>)
        ensures
            r@ == pids_of(self@),
    {
        let n = self.sessions.len();
        let mut r: Vec<u32> = Vec::new();
        let mut i: usize = 0;
        while i < n
            invariant
                n == self@.len(),
                i <= n,
                r@ == pids_of(self@.take(i as int)),
            decreases n - i,
        {
            let ghost pre = r@;
            match self.sessions[i].pid {
                Some(p) => {
                    r.push(p);
                },
                None => {},
            }
            proof {
                assert(self@.take(i + 1 as int).drop_last() =~= self@.take(i as int));
                assert(self@.take(i + 1 as int).last() == self@[i as int]);
                assert(r@ =~= pids_of(self@.take(i + 1 as int)));
            }
            i += 1;
        }
        proof {
            assert(self@.take(n as int) =~= self@);
        }
        r
    }

    /// How many sessions are currently `Running`.
    pub fn running_count(&self) -> (r: usize)
        ensures
            r == running_total(self@),
    {
        let n = self.sessions.len();
        let mut count: usize = 0;
        let mut i: usize = 0;
        while i < n
            invariant
                n == self@.len(),
                i <= n,
                count == running_total(self@.take(i as int)),
                count <= i,
            decreases n - i,
        {
            if matches!(self.sessions[i].status, SessionStatus::Running) {
                count = count + 1;
            }
            proof {
                assert(self@.take(i + 1 as int).drop_last() =~= self@.take(i as int));
                assert(self@.take(i + 1 as int).last() == self@[i as int]);
            }
            i += 1;
        }
        proof {
            assert(self@.take(n as int) =~= self@);
        }
        count
    }

    /// A read-only snapshot of every session: identity, metadata, the
    /// status as a string, and the uptime as whole seconds since the
    /// monotonic spawn stamp. Never fails.
    pub fn list(&self) -> (r: Result<Vec<SessionInfo>, SessionError>)
        ensures
            r is Ok,
            r matches Ok(infos) ==> infos@.len() == self@.len() && (forall|i: int|
                0 <= i < self@.len() ==> reflects(#[trigger] infos@[i]@, self@[i])),
    {
        let n = self.sessions.len();
        let mut infos: Vec<SessionInfo> = Vec::new();
        let mut i: usize = 0;
        while i < n
            invariant
                n == self@.len(),
                i <= n,
                infos@.len() == i,
                forall|j: int| 0 <= j < i ==> reflects(#[trigger] infos@[j]@, self@[j]),
            decreases n - i,
        {
            let h = &self.sessions[i];
            let status = if matches!(h.status, SessionStatus::Running) {
                "running".to_owned()
            } else {
                "exited".to_owned()
            };
            let info = SessionInfo {
                session_id: h.session_id.clone(),
                task_id: h.task_id,
                project_id: h.project_id,
                pid: h.pid,
                uptime_secs: pty::instant_elapsed_secs(&h.started_at),
                started_at_epoch: h.started_at_epoch,
                status,
                working_dir: h.working_dir.clone(),
            };
            infos.push(info);
            i += 1;
        }
        Ok(infos)
    }

    /// Allocates a fresh identifier, opens a pseudo-terminal of the
    /// given size, spawns the resolved program in the given working
    /// directory with the argument and environment policy of
    /// `spawn_args`, records the start stamps, and appends the session
    /// to the table. On any failure the table is unchanged and a
    /// `SpawnError` describes the step that failed; on success the new
    /// entry is immediately visible under the returned identifier.
    pub fn spawn(
        &mut self,
        task_id: i32,
        project_id: i32,
        working_dir: String,
        initial_prompt: Option<String>,
        cli_command: Option<String>,
        model: Option<String>,
        rows: u16,
        cols: u16,
    ) -> (r: Result<String, SessionError>)
        requires
            old(self).wf(),
        ensures
            final(self).wf(),
            r matches Err(e) ==> e is SpawnError && final(self)@ == old(self)@,
            r matches Ok(id) ==> ({
                &&& !contains_id(old(self)@, id@)
                &&& final(self)@.len() == old(self)@.len() + 1
                &&& final(self)@.drop_last() == old(self)@
                &&& final(self)@.last().session_id == id@
                &&& final(self)@.last().task_id == task_id
                &&& final(self)@.last().project_id == project_id
                &&& final(self)@.last().working_dir == working_dir@
                &&& final(self)@.last().status is Running
                &&& final(self)@.last().reader_taken == false
            }),
    {
        let program = args::resolve_program(&cli_command);
        let arg_list = args::build_args(&model, &initial_prompt);

        let pair = match pty::open_pty(rows, cols) {
            Ok(p) => p,
            Err(m) => {
                return Err(SessionError::SpawnError(m));
            },
        };

        let mut cmd = pty::command_new(&program);
        pty::command_cwd(&mut cmd, &working_dir);
        let mut k: usize = 0;
        while k < arg_list.len()
            decreases arg_list.len() - k,
        {
            pty::command_arg(&mut cmd, &arg_list[k]);
            k += 1;
        }
        pty::command_env(&mut cmd, args::TERM_VAR, args::TERM_VALUE);
        pty::command_env_remove(&mut cmd, args::NESTED_GUARD_VAR);

        let (transport, pid) = match pty::spawn_in_pty(pair, cmd) {
            Ok(t) => t,
            Err(m) => {
                return Err(SessionError::SpawnError(m));
            },
        };

        let session_id = pty::new_session_id();
        match self.find(session_id.as_str()) {
            Some(_) => {
                // A colliding identifier would break the uniqueness
                // invariant; reap the child and report the failure.
                let mut t = transport;
                let _ = pty::transport_kill(&mut t);
                return Err(SessionError::SpawnError(
                    "Failed to allocate a fresh session identifier".to_owned(),
                ));
            },
            None => {},
        }

        let handle = SessionHandle {
            session_id: session_id.clone(),
            task_id,
            project_id,
            working_dir,
            pid,
            started_at: pty::instant_now(),
            started_at_epoch: pty::epoch_now_secs(),
            status: SessionStatus::Running,
            transport,
            reader_taken: false,
        };
        self.sessions.push(handle);
        proof {
            assert(self@.drop_last() =~= old(self)@);
            assert forall|a: int, b: int| 0 <= a < b < self@.len() implies self@[a].session_id
                != self@[b].session_id by {
                if b < self@.len() - 1 {
                    assert(old(self)@[a].session_id != old(self)@[b].session_id);
                } else {
                    assert(!contains_id(old(self)@, session_id@));
                    assert(self@[a] == old(self)@[a]);
                }
            }
        }
        Ok(session_id)
    }
}

/// The process ids a table reports: one entry per session whose platform
/// reported a pid, in table order.
pub open spec fn pids_of(t: Seq<SessionView>) -> Seq<u32>
    decreases t.len(),
{
    if t.len() == 0 {
        Seq::empty()
    } else {
        pids_of(t.drop_last()) + (match t.last().pid {
            Some(p) => seq![p],
            None => Seq::empty(),
        })
    }
}

/// How many entries of a table are `Running`.
pub open spec fn running_total(t: Seq<SessionView>) -> nat
    decreases t.len(),
{
    if t.len() == 0 {
        0
    } else {
        running_total(t.drop_last()) + (if t.last().status is Running {
            1nat
        } else {
            0nat
        })
    }
}

/// The set of identifiers a table holds. `list` reports exactly the
/// entries of the table, so this is also the set of identifiers a
/// snapshot shows, whatever each session's status.
pub open spec fn id_set(t: Seq<SessionView>) -> Set<Seq<char>> {
    Set::new(|id: Seq<char>| contains_id(t, id))
}

/// Law: appending a session — what a successful `spawn` does to the
/// table — adds exactly the new session's identifier to the set of
/// identifiers; every other identifier stays, whatever its status.
pub proof fn lemma_ids_after_spawn(t: Seq<SessionView>, v: SessionView)
    ensures
        id_set(t.push(v)) =~= id_set(t).insert(v.session_id),
{
    assert forall|id: Seq<char>| #[trigger] contains_id(t.push(v), id) implies contains_id(t, id)
        || id == v.session_id by {
        let i = choose|i: int| 0 <= i < t.push(v).len() && t.push(v)[i].session_id == id;
        if i < t.len() {
            assert(t[i].session_id == id);
        }
    }
    assert forall|id: Seq<char>| contains_id(t, id) || id == v.session_id implies #[trigger]
        contains_id(t.push(v), id) by {
        if contains_id(t, id) {
            let i = choose|i: int| 0 <= i < t.len() && t[i].session_id == id;
            assert(t.push(v)[i].session_id == id);
        } else {
            assert(t.push(v)[t.len() as int].session_id == id);
        }
    }
}

/// Law: a snapshot that reports the table entry by entry — what `list`
/// ensures — shows exactly the identifiers of the table, whatever each
/// session's status. With the spawn and remove laws this pins down
/// `list` over any run: exactly the spawned identifiers minus the
/// removed ones.
pub proof fn lemma_snapshot_ids(t: Seq<SessionView>, infos: Seq<SessionInfoView>)
    requires
        infos.len() == t.len(),
        forall|i: int| 0 <= i < t.len() ==> reflects(#[trigger] infos[i], t[i]),
    ensures
        Set::new(
            |id: Seq<char>| exists|i: int| 0 <= i < infos.len() && infos[i].session_id == id,
        ) =~= id_set(t),
{
    assert forall|id: Seq<char>|
        (exists|i: int| 0 <= i < infos.len() && infos[i].session_id == id) implies contains_id(
        t,
        id,
    ) by {
        let i = choose|i: int| 0 <= i < infos.len() && infos[i].session_id == id;
        assert(t[i].session_id == id);
    }
    assert forall|id: Seq<char>| contains_id(t, id) implies exists|i: int|
        0 <= i < infos.len() && infos[i].session_id == id by {
        let i = choose|i: int| 0 <= i < t.len() && t[i].session_id == id;
        assert(infos[i].session_id == id);
    }
}

/// Law: deleting the entry that carries an identifier — what a
/// successful `remove` does to a well-formed table — takes exactly that
/// identifier out of the set of identifiers; every other identifier
/// stays.
pub proof fn lemma_ids_after_remove(t: Seq<SessionView>, id: Seq<char>)
    requires
        distinct_ids(t),
        contains_id(t, id),
    ensures
        id_set(t.remove(id_index(t, id))) =~= id_set(t).remove(id),
{
    let j = id_index(t, id);
    assert(0 <= j < t.len() && t[j].session_id == id);
    let u = t.remove(j);
    assert forall|s: Seq<char>| #[trigger] contains_id(u, s) implies contains_id(t, s) && s != id
        by {
        let i = choose|i: int| 0 <= i < u.len() && u[i].session_id == s;
        let ii = if i < j {
            i
        } else {
            i + 1
        };
        assert(t[ii].session_id == s);
        if s == id {
            assert(t[ii].session_id == t[j].session_id);
            assert(ii != j);
            assert(false);
        }
    }
    assert forall|s: Seq<char>| contains_id(t, s) && s != id implies #[trigger] contains_id(u, s)
        by {
        let i = choose|i: int| 0 <= i < t.len() && t[i].session_id == s;
        assert(i != j);
        if i < j {
            assert(u[i].session_id == s);
        } else {
            assert(u[i - 1].session_id == s);
        }
    }
}

} // verus!
