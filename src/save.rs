//! The steps of a save, as a machine from state and event to the next state
//! and the action to perform. The caller performs each action and reports
//! what came of it.
use vstd::prelude::*;
use crate::dump::{Operation, OperationLog};
use crate::error::{Error, ErrorKind};
use crate::location::{
    dump_dir_text,
    dump_directory,
    dump_file_name,
    file_name_text,
    home_directory,
    join_path,
    joined,
};
use crate::timestamp::{local_now, Timestamp};

verus! {

/// How far a save has come.
pub enum SaveState {
    /// Waiting for the current working directory.
    Start { prefix: String, operations: Vec<Operation> },
    /// Waiting to learn whether `directory` exists.
    CheckingDirectory { directory: String, path: String, log: OperationLog },
    /// Waiting for `directory` to be created.
    CreatingDirectory { directory: String, path: String, log: OperationLog },
    /// Waiting for the record to be written at `path`.
    Writing { path: String },
    /// Nothing more to do.
    Finished,
}

/// What the caller observed while performing an action.
pub enum SaveEvent {
    WorkingDirectory { cwd: String },
    WorkingDirectoryFailed { detail: String },
    DirectoryChecked { exists: bool },
    DirectoryCreated,
    DirectoryCreateFailed,
    FileCreateFailed,
    WriteFailed,
    Written,
}

/// What the caller is to do next.
pub enum SaveAction {
    QueryWorkingDirectory,
    /// Find out whether the directory exists.
    CheckDirectory { path: String },
    /// Create the directory and any missing parent.
    CreateDirectory { path: String },
    /// Create the file at `path` and write `log` into it as pretty JSON.
    WriteLog { path: String, log: OperationLog },
    /// The save is over: the path written, or why it failed.
    Finish { outcome: Result<String, Error> },
}

/// `log` records `operations`, run from `cwd` at `now`.
pub open spec fn records(log: OperationLog, now: Timestamp, cwd: Seq<char>, operations: Seq<Operation>) -> bool {
    &&& log.date@ == now.record_text()
    &&& log.directory@ == cwd
    &&& log.operations@ == operations
}

/// The machine waits for the outcome of writing `log` at `path`, and asks for it.
pub open spec fn writes(s: SaveState, a: SaveAction, path: Seq<char>, log: OperationLog) -> bool {
    &&& s matches SaveState::Writing { path: p } && p@ == path
    &&& a matches SaveAction::WriteLog { path: q, log: l } && q@ == path && l == log
}

/// The machine has stopped with `error`, of `kind` and carrying `value`.
pub open spec fn fails(s: SaveState, a: SaveAction, kind: ErrorKind, value: Seq<char>) -> bool {
    &&& s is Finished
    &&& a matches SaveAction::Finish { outcome } && outcome is Err && outcome->Err_0.is(kind, value)
}

/// The machine has stopped after writing `path`.
pub open spec fn succeeds(s: SaveState, a: SaveAction, path: Seq<char>) -> bool {
    &&& s is Finished
    &&& a matches SaveAction::Finish { outcome } && outcome is Ok && outcome->Ok_0@ == path
}

/// Where the machine stands once the time, the working directory and the home
/// directory are known: under `<home>/.rnr` when there is a home directory,
/// else in the working directory itself.
pub open spec fn located(
    prefix: Seq<char>,
    operations: Seq<Operation>,
    now: Timestamp,
    cwd: Seq<char>,
    home: Option<Seq<char>>,
    s: SaveState,
    a: SaveAction,
) -> bool {
    let name = file_name_text(prefix, now);
    match home {
        Some(h) => {
            &&& s matches SaveState::CheckingDirectory { directory, path, log }
            &&& directory@ == dump_dir_text(h)
            &&& path@ == joined(dump_dir_text(h), name)
            &&& records(log, now, cwd, operations)
            &&& a matches SaveAction::CheckDirectory { path: p } && p@ == dump_dir_text(h)
        },
        None => {
            &&& s matches SaveState::Writing { path } && path@ == joined(cwd, name)
            &&& a matches SaveAction::WriteLog { path: p, log }
            &&& p@ == joined(cwd, name)
            &&& records(log, now, cwd, operations)
        },
    }
}

pub open spec fn opt_view(o: Option<String>) -> Option<Seq<char>> {
    match o {
        Some(s) => Some(s@),
        None => None,
    }
}

/// `s` still holds `operations`, wherever it holds operations at all.
pub open spec fn carries(s: SaveState, operations: Seq<Operation>) -> bool {
    match s {
        SaveState::Start { operations: o, .. } => o@ == operations,
        SaveState::CheckingDirectory { log, .. } => log.operations@ == operations,
        SaveState::CreatingDirectory { log, .. } => log.operations@ == operations,
        _ => true,
    }
}

/// A save hands on the operations it was started with, unchanged and in their
/// order: every step keeps them, and a record that a step asks to write holds
/// exactly them.
pub proof fn lemma_save_keeps_operations(
    s: SaveState,
    e: SaveEvent,
    next: SaveState,
    a: SaveAction,
    operations: Seq<Operation>,
)
    requires
        carries(s, operations),
        s.steps_to(e, next, a),
    ensures
        carries(next, operations),
        a matches SaveAction::WriteLog { log, .. } ==> log.operations@ == operations,
{
    if let SaveState::Start { prefix, operations: o } = s {
        if let SaveEvent::WorkingDirectory { cwd } = e {
            let (now, home) = choose|now: Timestamp, home: Option<Seq<char>>|
                now.wf() && #[trigger] located(prefix@, o@, now, cwd@, home, next, a);
            assert(located(prefix@, o@, now, cwd@, home, next, a));
        }
    }
}

/// Without a home directory, a save writes its record into the working
/// directory, and does not fail for want of a home.
pub proof fn lemma_home_fallback(
    prefix: Seq<char>,
    operations: Seq<Operation>,
    now: Timestamp,
    cwd: Seq<char>,
    s: SaveState,
    a: SaveAction,
)
    requires
        located(prefix, operations, now, cwd, None, s, a),
    ensures
        s matches SaveState::Writing { path } && path@ == joined(cwd, file_name_text(prefix, now)),
        a matches SaveAction::WriteLog { path, log } && path@ == joined(
            cwd,
            file_name_text(prefix, now),
        ) && records(log, now, cwd, operations),
{
}

/// Where the directory of dump files is missing, it is created, and only then
/// is the record written into it.
pub proof fn lemma_missing_directory_created(
    s: SaveState,
    n1: SaveState,
    a1: SaveAction,
    n2: SaveState,
    a2: SaveAction,
)
    requires
        s is CheckingDirectory,
        s.steps_to(SaveEvent::DirectoryChecked { exists: false }, n1, a1),
        n1.steps_to(SaveEvent::DirectoryCreated, n2, a2),
    ensures
        a1 matches SaveAction::CreateDirectory { path } && path@ == s->CheckingDirectory_directory@,
        a2 matches SaveAction::WriteLog { path, log } && path@ == s->CheckingDirectory_path@ && log
            == s->CheckingDirectory_log,
{
}

/// Where the directory of dump files already exists, the record is written
/// into it at once, without creating it again.
pub proof fn lemma_existing_directory_kept(s: SaveState, n1: SaveState, a1: SaveAction)
    requires
        s is CheckingDirectory,
        s.steps_to(SaveEvent::DirectoryChecked { exists: true }, n1, a1),
    ensures
        a1 matches SaveAction::WriteLog { path, log } && path@ == s->CheckingDirectory_path@ && log
            == s->CheckingDirectory_log,
        !(a1 is CreateDirectory),
{
}

impl SaveState {
    /// The events that the machine waits for in this state.
    pub open spec fn expects(&self, e: SaveEvent) -> bool {
        match self {
            SaveState::Start { .. } => e is WorkingDirectory || e is WorkingDirectoryFailed,
            SaveState::CheckingDirectory { .. } => e is DirectoryChecked,
            SaveState::CreatingDirectory { .. } => e is DirectoryCreated || e is DirectoryCreateFailed,
            SaveState::Writing { .. } => e is FileCreateFailed || e is WriteFailed || e is Written,
            SaveState::Finished => false,
        }
    }

    /// One step: `next` and `a` follow from this state and `e`.
    pub open spec fn steps_to(self, e: SaveEvent, next: SaveState, a: SaveAction) -> bool {
        match self {
            SaveState::Start { prefix, operations } => match e {
                SaveEvent::WorkingDirectory { cwd } => exists|now: Timestamp, home: Option<Seq<char>>|
                    now.wf() && #[trigger] located(prefix@, operations@, now, cwd@, home, next, a),
                SaveEvent::WorkingDirectoryFailed { detail } => fails(
                    next,
                    a,
                    ErrorKind::EnvironmentQuery,
                    detail@,
                ),
                _ => false,
            },
            SaveState::CheckingDirectory { directory, path, log } => match e {
                SaveEvent::DirectoryChecked { exists } => if exists {
                    writes(next, a, path@, log)
                } else {
                    &&& next matches SaveState::CreatingDirectory { directory: d, path: p, log: l }
                    &&& d@ == directory@ && p@ == path@ && l == log
                    &&& a matches SaveAction::CreateDirectory { path: q } && q@ == directory@
                },
                _ => false,
            },
            SaveState::CreatingDirectory { directory, path, log } => match e {
                SaveEvent::DirectoryCreated => writes(next, a, path@, log),
                SaveEvent::DirectoryCreateFailed => fails(
                    next,
                    a,
                    ErrorKind::DirectoryCreate,
                    directory@,
                ),
                _ => false,
            },
            SaveState::Writing { path } => match e {
                SaveEvent::FileCreateFailed => fails(next, a, ErrorKind::FileCreate, path@),
                SaveEvent::WriteFailed => fails(next, a, ErrorKind::JsonWrite, path@),
                SaveEvent::Written => succeeds(next, a, path@),
                _ => false,
            },
            SaveState::Finished => false,
        }
    }

    /// A save of `operations` into a file whose name begins with `prefix`.
    pub fn start(prefix: String, operations: Vec<Operation>) -> (r: (SaveState, SaveAction))
        ensures
            r.0 matches SaveState::Start { prefix: p, operations: o } && p@ == prefix@
                && o@ == operations@,
            r.1 is QueryWorkingDirectory,
    {
        (SaveState::Start { prefix, operations }, SaveAction::QueryWorkingDirectory)
    }

    pub fn accepts(&self, e: &SaveEvent) -> (r: bool)
        ensures
            r == self.expects(*e),
    {
        match self {
            SaveState::Start { .. } => match e {
                SaveEvent::WorkingDirectory { .. } | SaveEvent::WorkingDirectoryFailed { .. } => true,
                _ => false,
            },
            SaveState::CheckingDirectory { .. } => match e {
                SaveEvent::DirectoryChecked { .. } => true,
                _ => false,
            },
            SaveState::CreatingDirectory { .. } => match e {
                SaveEvent::DirectoryCreated | SaveEvent::DirectoryCreateFailed => true,
                _ => false,
            },
            SaveState::Writing { .. } => match e {
                SaveEvent::FileCreateFailed | SaveEvent::WriteFailed | SaveEvent::Written => true,
                _ => false,
            },
            SaveState::Finished => false,
        }
    }

    /// Where a save stands once `now`, `cwd` and `home` are known.
    pub fn locate(
        prefix: String,
        operations: Vec<Operation>,
        now: &Timestamp,
        cwd: String,
        home: Option<String>,
    ) -> (r: (SaveState, SaveAction))
        requires
            now.wf(),
        ensures
            located(prefix@, operations@, *now, cwd@, opt_view(home), r.0, r.1),
    {
        let name = dump_file_name(prefix.as_str(), now);
        match home {
            Some(h) => {
                let directory = dump_directory(h.as_str());
                let path = join_path(directory.as_str(), name.as_str());
                let log = OperationLog::new(now, cwd, operations);
                let check = directory.clone();
                (
                    SaveState::CheckingDirectory { directory, path, log },
                    SaveAction::CheckDirectory { path: check },
                )
            },
            None => {
                let path = join_path(cwd.as_str(), name.as_str());
                let log = OperationLog::new(now, cwd, operations);
                let target = path.clone();
                (SaveState::Writing { path }, SaveAction::WriteLog { path: target, log })
            },
        }
    }

    /// Takes in what came of the last action. Reading the clock and the home
    /// directory happens here, once the working directory is known.
    pub fn step(self, e: SaveEvent) -> (r: (SaveState, SaveAction))
        requires
            self.expects(e),
        ensures
            self.steps_to(e, r.0, r.1),
    {
        match self {
            SaveState::Start { prefix, operations } => match e {
                SaveEvent::WorkingDirectory { cwd } => {
                    let now = local_now();
                    let home = home_directory();
                    let ghost h = opt_view(home);
                    let r = SaveState::locate(prefix, operations, &now, cwd, home);
                    assert(located(prefix@, operations@, now, cwd@, h, r.0, r.1));
                    r
                },
                SaveEvent::WorkingDirectoryFailed { detail } => (
                    SaveState::Finished,
                    SaveAction::Finish {
                        outcome: Err(Error::new(ErrorKind::EnvironmentQuery, detail)),
                    },
                ),
                _ => (SaveState::Finished, SaveAction::QueryWorkingDirectory),
            },
            SaveState::CheckingDirectory { directory, path, log } => match e {
                SaveEvent::DirectoryChecked { exists } => {
                    if exists {
                        let target = path.clone();
                        (SaveState::Writing { path }, SaveAction::WriteLog { path: target, log })
                    } else {
                        let create = directory.clone();
                        (
                            SaveState::CreatingDirectory { directory, path, log },
                            SaveAction::CreateDirectory { path: create },
                        )
                    }
                },
                _ => (SaveState::Finished, SaveAction::QueryWorkingDirectory),
            },
            SaveState::CreatingDirectory { directory, path, log } => match e {
                SaveEvent::DirectoryCreated => {
                    let target = path.clone();
                    (SaveState::Writing { path }, SaveAction::WriteLog { path: target, log })
                },
                SaveEvent::DirectoryCreateFailed => (
                    SaveState::Finished,
                    SaveAction::Finish { outcome: Err(Error::new(ErrorKind::DirectoryCreate, directory)) },
                ),
                _ => (SaveState::Finished, SaveAction::QueryWorkingDirectory),
            },
            SaveState::Writing { path } => match e {
                SaveEvent::FileCreateFailed => (
                    SaveState::Finished,
                    SaveAction::Finish { outcome: Err(Error::new(ErrorKind::FileCreate, path)) },
                ),
                SaveEvent::WriteFailed => (
                    SaveState::Finished,
                    SaveAction::Finish { outcome: Err(Error::new(ErrorKind::JsonWrite, path)) },
                ),
                SaveEvent::Written => (SaveState::Finished, SaveAction::Finish { outcome: Ok(path) }),
                _ => (SaveState::Finished, SaveAction::QueryWorkingDirectory),
            },
            SaveState::Finished => (SaveState::Finished, SaveAction::QueryWorkingDirectory),
        }
    }
}

} // verus!
