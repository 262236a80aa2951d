//! The decisions of a batch run over the requested files, as a state machine.
//!
//! The driver asks the session for its next action, performs it (read a file,
//! write a file, show a text) and hands the outcome back as an event. Files are
//! taken one at a time, in order; the first failure ends the whole batch.
use vstd::prelude::*;
use crate::cli::Request;
use crate::pattern::{PatternError, effective, regex_accepts, substitute, substitution};

verus! {

/// Why a file could not be read or written.
#[derive(Debug, Clone, Copy, PartialEq, Eq, Structural)]
pub enum IoErrorKind {
    NotFound,
    PermissionDenied,
    InvalidEncoding,
    Other,
}

/// Why a batch stopped early.
#[derive(Debug)]
pub enum RunError {
    /// The pattern does not compile.
    Pattern(PatternError),
    /// Reading or writing the file at this position of the batch failed.
    Io { file: usize, kind: IoErrorKind },
}

/// Which text of a file is shown.
#[derive(Debug, Clone, Copy, PartialEq, Eq, Structural)]
pub enum Shown {
    /// Find: the file with the matches removed.
    Found,
    /// Replace: the file as it was read.
    Before,
    /// Replace: the file as read back after writing.
    After,
}

/// What the driver is to do next.
#[derive(Debug)]
pub enum Action {
    /// Read the whole file at this position; answer `Loaded` or `Failed`.
    Read(usize),
    /// Overwrite the file at this position with the text; answer `Done` or `Failed`.
    Write(usize, String),
    /// Show a text of the file at this position; answer `Done`.
    Show(usize, Shown, String),
    /// The batch is complete.
    Finish,
    /// The batch stopped on this error.
    Abort(RunError),
}

/// The outcome of the last action.
#[derive(Debug)]
pub enum Event {
    /// The file was read and held this text.
    Loaded(String),
    /// The write or the show is done.
    Done,
    /// The read or write failed.
    Failed(IoErrorKind),
}

/// Where the session stands on the current file.
#[derive(Debug)]
pub enum Phase {
    Load,
    ShowFound(String),
    ShowBefore(String, String),
    Store(String),
    Reload,
    ShowAfter(String),
    Finished,
    Failed(RunError),
}

/// A batch run in progress.
#[derive(Debug)]
pub struct Session {
    count: usize,
    pattern: String,
    replacement: String,
    ignore_case: bool,
    rewrite: bool,
    index: usize,
    phase: Phase,
}

/// The abstract form of a `RunError`.
pub enum FailureModel {
    Pattern(Seq<char>),
    Io(nat, IoErrorKind),
}

/// The abstract form of a `Phase`.
pub enum PhaseModel {
    Load,
    ShowFound(Seq<char>),
    ShowBefore(Seq<char>, Seq<char>),
    Store(Seq<char>),
    Reload,
    ShowAfter(Seq<char>),
    Finished,
    Failed(FailureModel),
}

/// The abstract form of an `Action`.
pub enum ActionModel {
    Read(nat),
    Write(nat, Seq<char>),
    Show(nat, Shown, Seq<char>),
    Finish,
    Abort(FailureModel),
}

/// The abstract form of an `Event`.
pub enum EventModel {
    Loaded(Seq<char>),
    Done,
    Failed(IoErrorKind),
}

/// The abstract state of a session: the request's constant parts, the
/// position of the current file and the phase on it.
pub struct SessionModel {
    pub count: nat,
    pub pattern: Seq<char>,
    pub replacement: Seq<char>,
    pub ignore_case: bool,
    pub rewrite: bool,
    pub index: nat,
    pub phase: PhaseModel,
}

impl View for RunError {
    type V = FailureModel;

    open spec fn view(&self) -> FailureModel {
        match self {
            RunError::Pattern(e) => FailureModel::Pattern(e.pattern@),
            RunError::Io { file, kind } => FailureModel::Io(*file as nat, *kind),
        }
    }
}

impl View for Phase {
    type V = PhaseModel;

    open spec fn view(&self) -> PhaseModel {
        match self {
            Phase::Load => PhaseModel::Load,
            Phase::ShowFound(t) => PhaseModel::ShowFound(t@),
            Phase::ShowBefore(c, t) => PhaseModel::ShowBefore(c@, t@),
            Phase::Store(t) => PhaseModel::Store(t@),
            Phase::Reload => PhaseModel::Reload,
            Phase::ShowAfter(c) => PhaseModel::ShowAfter(c@),
            Phase::Finished => PhaseModel::Finished,
            Phase::Failed(e) => PhaseModel::Failed(e@),
        }
    }
}

impl View for Action {
    type V = ActionModel;

    open spec fn view(&self) -> ActionModel {
        match self {
            Action::Read(i) => ActionModel::Read(*i as nat),
            Action::Write(i, t) => ActionModel::Write(*i as nat, t@),
            Action::Show(i, k, t) => ActionModel::Show(*i as nat, *k, t@),
            Action::Finish => ActionModel::Finish,
            Action::Abort(e) => ActionModel::Abort(e@),
        }
    }
}

impl View for Event {
    type V = EventModel;

    open spec fn view(&self) -> EventModel {
        match self {
            Event::Loaded(c) => EventModel::Loaded(c@),
            Event::Done => EventModel::Done,
            Event::Failed(k) => EventModel::Failed(*k),
        }
    }
}

impl View for Session {
    type V = SessionModel;

    closed spec fn view(&self) -> SessionModel {
        SessionModel {
            count: self.count as nat,
            pattern: self.pattern@,
            replacement: self.replacement@,
            ignore_case: self.ignore_case,
            rewrite: self.rewrite,
            index: self.index as nat,
            phase: self.phase@,
        }
    }
}

/// The session that a request starts: on its first file, or finished at once
/// when there is none.
pub open spec fn initial(request: Request) -> SessionModel {
    let (files, pattern, replacement, ignore_case, rewrite) = match request {
        Request::Find { files, pattern } => (files, pattern@, Seq::<char>::empty(), false, false),
        Request::Replace { files, pattern, replacement, ignore_case } => (
            files,
            pattern@,
            replacement@,
            ignore_case,
            true,
        ),
    };
    SessionModel {
        count: files@.len(),
        pattern,
        replacement,
        ignore_case,
        rewrite,
        index: 0,
        phase: if files@.len() == 0 {
            PhaseModel::Finished
        } else {
            PhaseModel::Load
        },
    }
}

/// Moving on once the current file is dealt with.
pub open spec fn next_file(s: SessionModel) -> SessionModel {
    if s.index + 1 < s.count {
        SessionModel { index: s.index + 1, phase: PhaseModel::Load, ..s }
    } else {
        SessionModel { phase: PhaseModel::Finished, ..s }
    }
}

/// The session after an event; an event that the phase does not wait for
/// leaves it as it is.
pub open spec fn step(s: SessionModel, e: EventModel) -> SessionModel {
    match (s.phase, e) {
        (PhaseModel::Load, EventModel::Loaded(c)) => {
            let phase = match substitution(c, s.pattern, s.replacement, s.ignore_case) {
                None => PhaseModel::Failed(FailureModel::Pattern(s.pattern)),
                Some(t) => if s.rewrite {
                    PhaseModel::ShowBefore(c, t)
                } else {
                    PhaseModel::ShowFound(t)
                },
            };
            SessionModel { phase, ..s }
        },
        (PhaseModel::Reload, EventModel::Loaded(c)) => SessionModel {
            phase: PhaseModel::ShowAfter(c),
            ..s
        },
        (PhaseModel::ShowFound(_), EventModel::Done) => next_file(s),
        (PhaseModel::ShowAfter(_), EventModel::Done) => next_file(s),
        (PhaseModel::ShowBefore(_, t), EventModel::Done) => SessionModel {
            phase: PhaseModel::Store(t),
            ..s
        },
        (PhaseModel::Store(_), EventModel::Done) => SessionModel { phase: PhaseModel::Reload, ..s },
        (PhaseModel::Load, EventModel::Failed(k)) => SessionModel {
            phase: PhaseModel::Failed(FailureModel::Io(s.index, k)),
            ..s
        },
        (PhaseModel::Reload, EventModel::Failed(k)) => SessionModel {
            phase: PhaseModel::Failed(FailureModel::Io(s.index, k)),
            ..s
        },
        (PhaseModel::Store(_), EventModel::Failed(k)) => SessionModel {
            phase: PhaseModel::Failed(FailureModel::Io(s.index, k)),
            ..s
        },
        _ => s,
    }
}

/// What a session asks the driver to do.
pub open spec fn action_of(s: SessionModel) -> ActionModel {
    match s.phase {
        PhaseModel::Load => ActionModel::Read(s.index),
        PhaseModel::Reload => ActionModel::Read(s.index),
        PhaseModel::ShowFound(t) => ActionModel::Show(s.index, Shown::Found, t),
        PhaseModel::ShowBefore(c, _) => ActionModel::Show(s.index, Shown::Before, c),
        PhaseModel::Store(t) => ActionModel::Write(s.index, t),
        PhaseModel::ShowAfter(c) => ActionModel::Show(s.index, Shown::After, c),
        PhaseModel::Finished => ActionModel::Finish,
        PhaseModel::Failed(f) => ActionModel::Abort(f),
    }
}

/// The session after a sequence of events.
pub open spec fn run(s: SessionModel, events: Seq<EventModel>) -> SessionModel
    decreases events.len(),
{
    if events.len() == 0 {
        s
    } else {
        run(step(s, events[0]), events.drop_first())
    }
}

/// A session stands on a file of the batch until it is over.
pub open spec fn well_formed(s: SessionModel) -> bool {
    !(s.phase is Finished || s.phase is Failed) ==> s.index < s.count
}

/// Every session that a request starts, and every session reached from it,
/// is well formed, and any file it asks to read, write or show is one of
/// the batch.
pub proof fn actions_stay_in_batch(request: Request, events: Seq<EventModel>)
    ensures
        well_formed(run(initial(request), events)),
        action_of(run(initial(request), events)) matches ActionModel::Read(i) ==> i < initial(
            request,
        ).count,
        action_of(run(initial(request), events)) matches ActionModel::Write(i, _) ==> i < initial(
            request,
        ).count,
        action_of(run(initial(request), events)) matches ActionModel::Show(i, _, _) ==> i < initial(
            request,
        ).count,
{
    well_formed_is_kept(initial(request), events);
    files_are_taken_in_order(initial(request), events);
}

proof fn well_formed_is_kept(s: SessionModel, events: Seq<EventModel>)
    requires
        well_formed(s),
    ensures
        well_formed(run(s, events)),
    decreases events.len(),
{
    if events.len() > 0 {
        well_formed_is_kept(step(s, events[0]), events.drop_first());
    }
}

/// Once a batch has failed, no event moves it: it keeps asking to abort with
/// the same error, and touches no further file.
pub proof fn failure_is_final(s: SessionModel, events: Seq<EventModel>)
    requires
        s.phase is Failed,
    ensures
        run(s, events) == s,
        action_of(run(s, events)) == ActionModel::Abort(s.phase->Failed_0),
    decreases events.len(),
{
    if events.len() > 0 {
        failure_is_final(step(s, events[0]), events.drop_first());
    }
}

/// A batch goes through its files in order with one pattern and replacement:
/// the position never moves back, the request's parts never change, and a
/// write only ever goes to the current file, so a file already rewritten is
/// never written again.
pub proof fn files_are_taken_in_order(s: SessionModel, events: Seq<EventModel>)
    ensures
        run(s, events).index >= s.index,
        run(s, events).count == s.count,
        run(s, events).pattern == s.pattern,
        run(s, events).replacement == s.replacement,
        run(s, events).ignore_case == s.ignore_case,
        run(s, events).rewrite == s.rewrite,
        action_of(run(s, events)) matches ActionModel::Write(j, _) ==> j == run(s, events).index
            && j >= s.index,
    decreases events.len(),
{
    if events.len() > 0 {
        files_are_taken_in_order(step(s, events[0]), events.drop_first());
    }
}

/// A failed read of the current file stops the batch there: every later
/// action is the abort naming that file, so no later file is read or written.
pub proof fn read_failure_stops_batch(
    s: SessionModel,
    kind: IoErrorKind,
    events: Seq<EventModel>,
)
    requires
        s.phase is Load,
    ensures
        action_of(run(step(s, EventModel::Failed(kind)), events)) == ActionModel::Abort(
            FailureModel::Io(s.index, kind),
        ),
{
    failure_is_final(step(s, EventModel::Failed(kind)), events);
}

proof fn rejected_pattern_keeps_off_writes(s: SessionModel, events: Seq<EventModel>)
    requires
        !regex_accepts(effective(s.pattern, s.ignore_case)),
        s.phase is Load || s.phase is Finished || s.phase is Failed,
    ensures
        run(s, events).phase is Load || run(s, events).phase is Finished || run(
            s,
            events,
        ).phase is Failed,
        !(action_of(run(s, events)) is Write),
    decreases events.len(),
{
    if events.len() > 0 {
        rejected_pattern_keeps_off_writes(step(s, events[0]), events.drop_first());
    }
}

/// With a pattern that does not compile, no file is ever written, and the
/// first file read ends the batch on the pattern error.
pub proof fn rejected_pattern_writes_nothing(
    request: Request,
    events: Seq<EventModel>,
    content: Seq<char>,
)
    requires
        !regex_accepts(effective(initial(request).pattern, initial(request).ignore_case)),
    ensures
        !(action_of(run(initial(request), events)) is Write),
        initial(request).phase is Load ==> action_of(
            step(initial(request), EventModel::Loaded(content)),
        ) == ActionModel::Abort(FailureModel::Pattern(initial(request).pattern)),
{
    rejected_pattern_keeps_off_writes(initial(request), events);
}

fn copy_error(e: &RunError) -> (r: RunError)
    ensures
        r@ == e@,
{
    match e {
        RunError::Pattern(p) => RunError::Pattern(PatternError { pattern: p.pattern.clone() }),
        RunError::Io { file, kind } => RunError::Io { file: *file, kind: *kind },
    }
}

impl Session {
    /// Starts a batch run of the request.
    pub fn new(request: &Request) -> (r: Session)
        ensures
            r@ == initial(*request),
    {
        let (count, pattern, replacement, ignore_case, rewrite) = match request {
            Request::Find { files, pattern } => (
                files.len(),
                pattern.clone(),
                String::new(),
                false,
                false,
            ),
            Request::Replace { files, pattern, replacement, ignore_case } => (
                files.len(),
                pattern.clone(),
                replacement.clone(),
                *ignore_case,
                true,
            ),
        };
        let phase = if count == 0 {
            Phase::Finished
        } else {
            Phase::Load
        };
        let r = Session { count, pattern, replacement, ignore_case, rewrite, index: 0, phase };
        assert(r@.replacement =~= initial(*request).replacement);
        r
    }

    /// What the driver is to do next.
    pub fn action(&self) -> (a: Action)
        ensures
            a@ == action_of(self@),
    {
        match &self.phase {
            Phase::Load => Action::Read(self.index),
            Phase::Reload => Action::Read(self.index),
            Phase::ShowFound(t) => Action::Show(self.index, Shown::Found, t.clone()),
            Phase::ShowBefore(c, _) => Action::Show(self.index, Shown::Before, c.clone()),
            Phase::Store(t) => Action::Write(self.index, t.clone()),
            Phase::ShowAfter(c) => Action::Show(self.index, Shown::After, c.clone()),
            Phase::Finished => Action::Finish,
            Phase::Failed(e) => Action::Abort(copy_error(e)),
        }
    }

    /// Whether the batch is over, completed or stopped.
    pub fn is_over(&self) -> (r: bool)
        ensures
            r == (self@.phase is Finished || self@.phase is Failed),
    {
        match &self.phase {
            Phase::Finished => true,
            Phase::Failed(_) => true,
            _ => false,
        }
    }

    fn finish_file(&mut self)
        ensures
            final(self)@ == next_file(old(self)@),
    {
        if self.count > 0 && self.index < self.count - 1 {
            self.index = self.index + 1;
            self.phase = Phase::Load;
        } else {
            self.phase = Phase::Finished;
        }
    }

    /// Takes in the outcome of the last action.
    pub fn advance(&mut self, event: Event)
        ensures
            final(self)@ == step(old(self)@, event@),
    {
        let mut phase = Phase::Finished;
        std::mem::swap(&mut phase, &mut self.phase);
        match (phase, event) {
            (Phase::Load, Event::Loaded(c)) => {
                match substitute(c.as_str(), self.pattern.as_str(), self.replacement.as_str(), self.ignore_case) {
                    Err(e) => {
                        self.phase = Phase::Failed(RunError::Pattern(e));
                    },
                    Ok(t) => {
                        if self.rewrite {
                            self.phase = Phase::ShowBefore(c, t);
                        } else {
                            self.phase = Phase::ShowFound(t);
                        }
                    },
                }
            },
            (Phase::Reload, Event::Loaded(c)) => {
                self.phase = Phase::ShowAfter(c);
            },
            (Phase::ShowFound(_), Event::Done) => {
                self.finish_file();
            },
            (Phase::ShowAfter(_), Event::Done) => {
                self.finish_file();
            },
            (Phase::ShowBefore(_, t), Event::Done) => {
                self.phase = Phase::Store(t);
            },
            (Phase::Store(_), Event::Done) => {
                self.phase = Phase::Reload;
            },
            (Phase::Load, Event::Failed(kind)) => {
                self.phase = Phase::Failed(RunError::Io { file: self.index, kind });
            },
            (Phase::Reload, Event::Failed(kind)) => {
                self.phase = Phase::Failed(RunError::Io { file: self.index, kind });
            },
            (Phase::Store(_), Event::Failed(kind)) => {
                self.phase = Phase::Failed(RunError::Io { file: self.index, kind });
            },
            (other, _) => {
                self.phase = other;
            },
        }
    }
}

} // verus!
