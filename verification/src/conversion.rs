//! The conversion of one file as a state machine: read the source, send the
//! request, write the translation. Each step names the one thing to do
//! next, so a conversion reads nothing but its source and writes nothing
//! but its destination.

use vstd::prelude::*;
use crate::mapper::TreePath;
use crate::orchestrator::{ConversionTask, TaskError};
use crate::translator::{
    asks_for, prepare_request, read_exchange, reads_as, translation_of, CompletionRequest,
    Exchange,
};

verus! {

/// Where the conversion of one file stands.
#[derive(Debug, Clone, Copy, PartialEq, Eq, Structural)]
pub enum Stage {
    Reading,
    Exchanging,
    Writing,
    Done,
}

/// What the outside world reports to a conversion.
#[derive(Debug)]
pub enum FileEvent {
    /// The source was read, or could not be.
    Read(Result<String, String>),
    /// The exchange with the service has ended.
    Exchanged(Exchange),
    /// The destination was written, or could not be.
    Written(Result<(), String>),
}

/// What a conversion asks for next.
#[derive(Debug)]
pub enum FileAction {
    /// Read this file, and report `Read`.
    Read(TreePath),
    /// Send this request, and report `Exchanged`.
    Send(CompletionRequest),
    /// Write `content` to `path`, and report `Written`.
    Write { path: TreePath, content: String },
    /// The conversion is over.
    Done(Result<(), TaskError>),
    /// The event does not belong to the stage the conversion is in; nothing
    /// changed.
    Rejected,
}

/// The conversion of one file.
#[derive(Debug)]
pub struct Conversion {
    pub source_path: TreePath,
    pub destination_path: TreePath,
    pub stage: Stage,
}

/// The step that follows the reading of the source: whatever was read is
/// sent, in one request.
pub open spec fn read_step(result: Result<String, String>, stage: Stage, action: FileAction) -> bool {
    match result {
        Err(m) => stage == Stage::Done && (action matches FileAction::Done(
            Err(TaskError::FileSystem(t)),
        ) && t@ == m@),
        Ok(content) => stage == Stage::Exchanging && (action matches FileAction::Send(q)
            && asks_for(content@, q)),
    }
}

/// The step that follows the exchange: the translation it carries is
/// written to `destination`, and to no other place; without a translation
/// nothing is written and the conversion has failed.
pub open spec fn exchange_step(
    destination: Seq<Seq<char>>,
    exchange: Exchange,
    stage: Stage,
    action: FileAction,
) -> bool {
    match translation_of(exchange) {
        Some(text) => stage == Stage::Writing && (action matches FileAction::Write {
            path,
            content,
        } && path@ == destination && content@ == text),
        None => stage == Stage::Done && (action matches FileAction::Done(
            Err(TaskError::Translation(e)),
        ) && reads_as(exchange, Err(e))),
    }
}

/// The step that follows the writing of the destination.
pub open spec fn write_step(result: Result<(), String>, stage: Stage, action: FileAction) -> bool {
    stage == Stage::Done && match result {
        Ok(_) => action matches FileAction::Done(Ok(_)),
        Err(m) => action matches FileAction::Done(Err(TaskError::FileSystem(t))) && t@ == m@,
    }
}

/// One step of a conversion whose destination is `destination`: from
/// `stage`, on `event`, to `next` with `action`. An event that does not
/// belong to the stage changes nothing.
pub open spec fn conversion_step(
    destination: Seq<Seq<char>>,
    stage: Stage,
    event: FileEvent,
    next: Stage,
    action: FileAction,
) -> bool {
    match (stage, event) {
        (Stage::Reading, FileEvent::Read(result)) => read_step(result, next, action),
        (Stage::Exchanging, FileEvent::Exchanged(exchange)) => exchange_step(
            destination,
            exchange,
            next,
            action,
        ),
        (Stage::Writing, FileEvent::Written(result)) => write_step(result, next, action),
        _ => next == stage && action is Rejected,
    }
}

/// The files, each with its content, once `action` has been carried out on
/// the files `before`: a write puts its content at its path, and no other
/// action changes a file.
pub open spec fn files_after(
    before: Map<Seq<Seq<char>>, Seq<char>>,
    action: FileAction,
) -> Map<Seq<Seq<char>>, Seq<char>> {
    match action {
        FileAction::Write { path, content } => before.insert(path@, content@),
        _ => before,
    }
}

/// No step of a conversion asks for a change to any file but its
/// destination, and the destination changes only to the translation that
/// the exchange carried.
pub proof fn lemma_only_the_destination_changes(
    destination: Seq<Seq<char>>,
    stage: Stage,
    event: FileEvent,
    next: Stage,
    action: FileAction,
    before: Map<Seq<Seq<char>>, Seq<char>>,
)
    requires
        conversion_step(destination, stage, event, next, action),
    ensures
        files_after(before, action).remove(destination) == before.remove(destination),
        files_after(before, action) != before ==> (event matches FileEvent::Exchanged(exchange)
            && translation_of(exchange) is Some && files_after(before, action) == before.insert(
            destination,
            translation_of(exchange).unwrap(),
        )),
{
    assert(files_after(before, action).remove(destination) =~= before.remove(destination));
}

/// A conversion writes only on the step that follows an exchange, only the
/// first candidate of an answer with a success status, and only to its own
/// destination.
pub proof fn lemma_only_the_translation_is_written(
    destination: Seq<Seq<char>>,
    exchange: Exchange,
    stage: Stage,
    action: FileAction,
)
    requires
        exchange_step(destination, exchange, stage, action),
    ensures
        action is Write <==> translation_of(exchange) is Some,
        action is Write <==> stage == Stage::Writing,
        action matches FileAction::Write { path, content } ==> path@ == destination && Some(
            content@,
        ) == translation_of(exchange),
        !(action is Read) && !(action is Send),
{
}

/// A request is sent exactly on the step that follows a good read of the
/// source, whatever its length, and on no other step: one request for each
/// file that was read, none for one that was not, and none a second time.
pub proof fn lemma_one_request_per_read(
    destination: Seq<Seq<char>>,
    stage: Stage,
    event: FileEvent,
    next: Stage,
    action: FileAction,
)
    requires
        conversion_step(destination, stage, event, next, action),
    ensures
        action is Send <==> stage == Stage::Reading && event matches FileEvent::Read(Ok(_)),
        action matches FileAction::Send(q) ==> event matches FileEvent::Read(Ok(content))
            && asks_for(content@, q),
{
}

/// The steps after reading and after writing write nothing; only a
/// successful write ends a conversion in success.
pub proof fn lemma_success_follows_the_write(
    read: Result<String, String>,
    written: Result<(), String>,
    stage: Stage,
    action: FileAction,
)
    ensures
        read_step(read, stage, action) ==> !(action is Write) && !(action matches FileAction::Done(
            Ok(_),
        )),
        write_step(written, stage, action) ==> !(action is Write) && (action matches FileAction::Done(
            Ok(_),
        ) <==> written is Ok),
{
}

impl Conversion {
    /// The conversion of `task`, and its first action: reading the source.
    pub fn begin(task: ConversionTask) -> (r: (Conversion, FileAction))
        ensures
            r.0.source_path == task.source_path,
            r.0.destination_path == task.destination_path,
            r.0.stage == Stage::Reading,
            r.1 matches FileAction::Read(p) && p@ == task.source_path@,
    {
        let first = FileAction::Read(task.source_path.duplicate());
        (
            Conversion {
                source_path: task.source_path,
                destination_path: task.destination_path,
                stage: Stage::Reading,
            },
            first,
        )
    }

    /// Whether the conversion is over.
    pub fn is_done(&self) -> (r: bool)
        ensures
            r == (self.stage == Stage::Done),
    {
        self.stage == Stage::Done
    }

    /// Moves the conversion on by one event and says what to do next. The
    /// paths never change, and an event that does not belong to the current
    /// stage leaves the conversion as it was.
    pub fn step(&mut self, event: FileEvent) -> (action: FileAction)
        ensures
            final(self).source_path == old(self).source_path,
            final(self).destination_path == old(self).destination_path,
            conversion_step(
                old(self).destination_path@,
                old(self).stage,
                event,
                final(self).stage,
                action,
            ),
    {
        match self.stage {
            Stage::Reading => match event {
                FileEvent::Read(Ok(content)) => match prepare_request(content.as_str()) {
                    Ok(request) => {
                        self.stage = Stage::Exchanging;
                        FileAction::Send(request)
                    },
                    Err(e) => {
                        self.stage = Stage::Done;
                        FileAction::Done(Err(TaskError::Translation(e)))
                    },
                },
                FileEvent::Read(Err(m)) => {
                    self.stage = Stage::Done;
                    FileAction::Done(Err(TaskError::FileSystem(m)))
                },
                _ => FileAction::Rejected,
            },
            Stage::Exchanging => match event {
                FileEvent::Exchanged(exchange) => match read_exchange(exchange) {
                    Ok(content) => {
                        self.stage = Stage::Writing;
                        FileAction::Write { path: self.destination_path.duplicate(), content }
                    },
                    Err(e) => {
                        self.stage = Stage::Done;
                        FileAction::Done(Err(TaskError::Translation(e)))
                    },
                },
                _ => FileAction::Rejected,
            },
            Stage::Writing => match event {
                FileEvent::Written(result) => {
                    self.stage = Stage::Done;
                    match result {
                        Ok(_) => FileAction::Done(Ok(())),
                        Err(m) => FileAction::Done(Err(TaskError::FileSystem(m))),
                    }
                },
                _ => FileAction::Rejected,
            },
            Stage::Done => FileAction::Rejected,
        }
    }
}

} // verus!
