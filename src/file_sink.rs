//! Appending a line to the log file by read-modify-write.
//!
//! The library cannot touch files, so an append is a small state machine.
//! The host performs each [`FileAction`] on the job's path and hands the
//! outcome back as a [`FileEvent`]:
//!
//! 1. read the whole file;
//! 2. if it is absent, create it empty and read it once more;
//! 3. write the old content followed by the line.
//!
//! Any failure ends the job. A lenient job ends with `Report`, a diagnostic
//! that never stops the caller; a strict job (initialization) ends with
//! `Abort`, an error to surface.

use vstd::prelude::*;
use crate::errors::IoFault;
use crate::render::{newlines, lemma_newlines_concat};

verus! {

/// Where an append job stands: the operation it waits for.
#[derive(Clone, Copy, Debug, PartialEq, Eq, Structural)]
pub enum Phase {
    Reading,
    Creating,
    Rereading,
    Writing,
    Finished,
}

/// The outcome of the last file operation.
#[derive(Clone, Debug)]
pub enum FileEvent {
    /// The read gave this content.
    Loaded(String),
    /// The file does not exist.
    Missing,
    /// The operation failed.
    Failed(IoFault),
    /// The create or the write succeeded.
    Succeeded,
}

/// What the host is to do next.
#[derive(Clone, Debug)]
pub enum FileAction {
    /// Read the whole file as text.
    Read,
    /// Create the file, empty.
    Create,
    /// Replace the file's content with this text.
    Write(String),
    /// Nothing more to do: the line was appended, or the job was already over.
    Finish,
    /// Give up and print a diagnostic.
    Report(IoFault),
    /// Give up and surface the error.
    Abort(IoFault),
}

/// A [`FileEvent`] with its text as a sequence of characters.
pub enum EventModel {
    Loaded(Seq<char>),
    Missing,
    Failed(IoFault),
    Succeeded,
}

/// A [`FileAction`] with its text as a sequence of characters.
pub enum ActionModel {
    Read,
    Create,
    Write(Seq<char>),
    Finish,
    Report(IoFault),
    Abort(IoFault),
}

impl View for FileEvent {
    type V = EventModel;

    open spec fn view(&self) -> EventModel {
        match self {
            FileEvent::Loaded(c) => EventModel::Loaded(c@),
            FileEvent::Missing => EventModel::Missing,
            FileEvent::Failed(f) => EventModel::Failed(*f),
            FileEvent::Succeeded => EventModel::Succeeded,
        }
    }
}

impl View for FileAction {
    type V = ActionModel;

    open spec fn view(&self) -> ActionModel {
        match self {
            FileAction::Read => ActionModel::Read,
            FileAction::Create => ActionModel::Create,
            FileAction::Write(w) => ActionModel::Write(w@),
            FileAction::Finish => ActionModel::Finish,
            FileAction::Report(f) => ActionModel::Report(*f),
            FileAction::Abort(f) => ActionModel::Abort(*f),
        }
    }
}

/// How a job ends on a failure.
pub open spec fn failure(strict: bool, f: IoFault) -> ActionModel {
    if strict {
        ActionModel::Abort(f)
    } else {
        ActionModel::Report(f)
    }
}

/// The transition of a job that appends `line`: from its phase and the
/// outcome of the last operation to its next phase and action.
pub open spec fn next(phase: Phase, ev: EventModel, line: Seq<char>, strict: bool) -> (Phase, ActionModel) {
    match phase {
        Phase::Reading => match ev {
            EventModel::Loaded(c) => (Phase::Writing, ActionModel::Write(c + line)),
            EventModel::Missing => (Phase::Creating, ActionModel::Create),
            EventModel::Failed(f) => (Phase::Finished, failure(strict, f)),
            EventModel::Succeeded => (Phase::Finished, failure(strict, IoFault::Unexpected)),
        },
        Phase::Creating => match ev {
            EventModel::Succeeded => (Phase::Rereading, ActionModel::Read),
            EventModel::Failed(f) => (Phase::Finished, failure(strict, f)),
            EventModel::Missing => (Phase::Finished, failure(strict, IoFault::NotFound)),
            EventModel::Loaded(_) => (Phase::Finished, failure(strict, IoFault::Unexpected)),
        },
        Phase::Rereading => match ev {
            EventModel::Loaded(c) => (Phase::Writing, ActionModel::Write(c + line)),
            EventModel::Missing => (Phase::Finished, failure(strict, IoFault::NotFound)),
            EventModel::Failed(f) => (Phase::Finished, failure(strict, f)),
            EventModel::Succeeded => (Phase::Finished, failure(strict, IoFault::Unexpected)),
        },
        Phase::Writing => match ev {
            EventModel::Succeeded => (Phase::Finished, ActionModel::Finish),
            EventModel::Failed(f) => (Phase::Finished, failure(strict, f)),
            EventModel::Missing => (Phase::Finished, failure(strict, IoFault::NotFound)),
            EventModel::Loaded(_) => (Phase::Finished, failure(strict, IoFault::Unexpected)),
        },
        Phase::Finished => (Phase::Finished, ActionModel::Finish),
    }
}

/// One append of `line` to the file at `path`. A new job waits for the
/// result of reading the file: the host's first action is `Read`.
#[derive(Clone, Debug)]
pub struct AppendJob {
    pub path: String,
    pub line: String,
    pub strict: bool,
    pub phase: Phase,
}

impl AppendJob {
    pub fn new(path: String, line: String, strict: bool) -> (r: Self)
        ensures
            r.path == path,
            r.line == line,
            r.strict == strict,
            r.phase == Phase::Reading,
    {
        AppendJob { path, line, strict, phase: Phase::Reading }
    }

    /// The job has ended; no more operations are asked for.
    pub fn is_finished(&self) -> (r: bool)
        ensures
            r == (self.phase == Phase::Finished),
    {
        match self.phase {
            Phase::Finished => true,
            _ => false,
        }
    }

    fn fail(&self, f: IoFault) -> (r: FileAction)
        ensures
            r@ == failure(self.strict, f),
    {
        if self.strict {
            FileAction::Abort(f)
        } else {
            FileAction::Report(f)
        }
    }

    fn write_after(&self, c: String) -> (r: FileAction)
        ensures
            r@ == ActionModel::Write(c@ + self.line@),
    {
        let mut w = c;
        w.append(self.line.as_str());
        FileAction::Write(w)
    }

    /// Takes the outcome of the last operation and says what to do next.
    pub fn step(&mut self, ev: FileEvent) -> (r: FileAction)
        ensures
            final(self).path == old(self).path,
            final(self).line == old(self).line,
            final(self).strict == old(self).strict,
            (final(self).phase, r@) == next(old(self).phase, ev@, old(self).line@, old(self).strict),
    {
        let (phase, action) = match self.phase {
            Phase::Reading => match ev {
                FileEvent::Loaded(c) => (Phase::Writing, self.write_after(c)),
                FileEvent::Missing => (Phase::Creating, FileAction::Create),
                FileEvent::Failed(f) => (Phase::Finished, self.fail(f)),
                FileEvent::Succeeded => (Phase::Finished, self.fail(IoFault::Unexpected)),
            },
            Phase::Creating => match ev {
                FileEvent::Succeeded => (Phase::Rereading, FileAction::Read),
                FileEvent::Failed(f) => (Phase::Finished, self.fail(f)),
                FileEvent::Missing => (Phase::Finished, self.fail(IoFault::NotFound)),
                FileEvent::Loaded(_) => (Phase::Finished, self.fail(IoFault::Unexpected)),
            },
            Phase::Rereading => match ev {
                FileEvent::Loaded(c) => (Phase::Writing, self.write_after(c)),
                FileEvent::Missing => (Phase::Finished, self.fail(IoFault::NotFound)),
                FileEvent::Failed(f) => (Phase::Finished, self.fail(f)),
                FileEvent::Succeeded => (Phase::Finished, self.fail(IoFault::Unexpected)),
            },
            Phase::Writing => match ev {
                FileEvent::Succeeded => (Phase::Finished, FileAction::Finish),
                FileEvent::Failed(f) => (Phase::Finished, self.fail(f)),
                FileEvent::Missing => (Phase::Finished, self.fail(IoFault::NotFound)),
                FileEvent::Loaded(_) => (Phase::Finished, self.fail(IoFault::Unexpected)),
            },
            Phase::Finished => (Phase::Finished, FileAction::Finish),
        };
        self.phase = phase;
        action
    }
}

/// What a file holds: `None` when it does not exist.
pub open spec fn content(file: Option<Seq<char>>) -> Seq<char> {
    match file {
        Some(c) => c,
        None => Seq::empty(),
    }
}

/// A file system on which every operation succeeds: the file after the
/// action, and the outcome reported.
pub open spec fn answer(file: Option<Seq<char>>, a: ActionModel) -> (Option<Seq<char>>, EventModel) {
    match a {
        ActionModel::Read => match file {
            Some(c) => (file, EventModel::Loaded(c)),
            None => (file, EventModel::Missing),
        },
        ActionModel::Create => (Some(Seq::empty()), EventModel::Succeeded),
        ActionModel::Write(w) => (Some(w), EventModel::Succeeded),
        _ => (file, EventModel::Succeeded),
    }
}

pub open spec fn ends_job(a: ActionModel) -> bool {
    a is Finish || a is Report || a is Abort
}

/// Runs a job on a file system where every operation succeeds, for at
/// most `fuel` operations: its final phase, last action and the file.
pub open spec fn run(
    phase: Phase,
    pending: ActionModel,
    file: Option<Seq<char>>,
    line: Seq<char>,
    strict: bool,
    fuel: nat,
) -> (Phase, ActionModel, Option<Seq<char>>)
    decreases fuel,
{
    if fuel == 0 || ends_job(pending) {
        (phase, pending, file)
    } else {
        let (file2, ev) = answer(file, pending);
        let (phase2, a2) = next(phase, ev, line, strict);
        run(phase2, a2, file2, line, strict, (fuel - 1) as nat)
    }
}

/// The file after a new job appending `line` has run on it.
pub open spec fn appended(file: Option<Seq<char>>, line: Seq<char>, strict: bool) -> Option<Seq<char>> {
    run(Phase::Reading, ActionModel::Read, file, line, strict, 4).2
}

/// On a file system where every operation succeeds, a job ends within four
/// operations, with `Finish`, and leaves the old content followed by the
/// line; an absent file is created first.
pub proof fn lemma_append_on_healthy_file(file: Option<Seq<char>>, line: Seq<char>, strict: bool)
    ensures
        run(Phase::Reading, ActionModel::Read, file, line, strict, 4) == (
            Phase::Finished,
            ActionModel::Finish,
            Some(content(file) + line),
        ),
        appended(file, line, strict) == Some(content(file) + line),
{
    reveal_with_fuel(run, 5);
    assert(Seq::<char>::empty() + line =~= line);
}

/// Initializing a fresh path leaves a file that holds the first entry
/// alone; initializing again appends the second entry after it.
pub proof fn lemma_init_twice(first: Seq<char>, second: Seq<char>)
    ensures
        appended(None, first, true) == Some(first),
        appended(appended(None, first, true), second, true) == Some(first + second),
{
    lemma_append_on_healthy_file(None, first, true);
    lemma_append_on_healthy_file(Some(first), second, true);
    assert(Seq::<char>::empty() + first =~= first);
}

/// The lines in order, joined.
pub open spec fn joined(lines: Seq<Seq<char>>) -> Seq<char>
    decreases lines.len(),
{
    if lines.len() == 0 {
        Seq::empty()
    } else {
        joined(lines.drop_last()) + lines.last()
    }
}

/// The file after appending each line in turn.
pub open spec fn appended_all(file: Option<Seq<char>>, lines: Seq<Seq<char>>) -> Option<Seq<char>>
    decreases lines.len(),
{
    if lines.len() == 0 {
        file
    } else {
        appended(appended_all(file, lines.drop_last()), lines.last(), false)
    }
}

/// Appending lines one after the other on a healthy file system leaves
/// the old content followed by the lines in call order; when each line
/// holds exactly one line break, the file gains exactly one line per call.
pub proof fn lemma_appends_in_order(file: Option<Seq<char>>, lines: Seq<Seq<char>>)
    ensures
        content(appended_all(file, lines)) == content(file) + joined(lines),
        lines.len() > 0 ==> appended_all(file, lines) is Some,
        (forall|i: int| 0 <= i < lines.len() ==> newlines(#[trigger] lines[i]) == 1) ==>
            newlines(content(appended_all(file, lines))) == newlines(content(file)) + lines.len(),
    decreases lines.len(),
{
    if lines.len() == 0 {
        assert(content(file) + joined(lines) =~= content(file));
    } else {
        let init = lines.drop_last();
        lemma_appends_in_order(file, init);
        let before = appended_all(file, init);
        lemma_append_on_healthy_file(before, lines.last(), false);
        assert(content(file) + joined(lines) =~= content(file) + joined(init) + lines.last());
        if forall|i: int| 0 <= i < lines.len() ==> newlines(#[trigger] lines[i]) == 1 {
            assert forall|i: int| 0 <= i < init.len() implies newlines(#[trigger] init[i]) == 1 by {
                assert(init[i] == lines[i]);
            }
            assert(newlines(lines[lines.len() - 1]) == 1);
            lemma_newlines_concat(content(before), lines.last());
        }
    }
}

} // verus!
