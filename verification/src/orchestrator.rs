//! The run as a state machine: each event that the outside world reports
//! moves the run on and names the next thing to do.

use vstd::prelude::*;
use vstd::string::*;
use crate::mapper::{TreePath, joined, lemma_mapping_total, mapped_dir, mapped_file, single_destination, map_dir, map_file, single_file_destination};
use crate::path::extension;
use crate::translator::TranslationError;
use crate::walker::{Entry, EntryKind, included, include_entry, parents_first};

verus! {

/// What a run is given: where to read, where to write, and the credential
/// for the translation service.
#[derive(Debug)]
pub struct RunConfig {
    pub source_root: TreePath,
    pub destination_root: TreePath,
    pub credential: String,
    pub source_extension: String,
    pub output_extension: String,
}

/// One file to convert.
#[derive(Debug)]
pub struct ConversionTask {
    pub source_path: TreePath,
    pub destination_path: TreePath,
}

/// Why the conversion of one file failed.
#[derive(Debug)]
pub enum TaskError {
    /// The source could not be read or the destination not written.
    FileSystem(String),
    /// The translation failed.
    Translation(TranslationError),
}

/// How the conversion of one file ended.
#[derive(Debug)]
pub enum ConversionOutcome {
    Success,
    Failure { error: TaskError, destination_path: TreePath },
}

/// Where a run stands.
#[derive(Debug, Clone, Copy, PartialEq, Eq, Structural)]
pub enum Phase {
    Init,
    Validating,
    SingleFile,
    TreeWalk,
    Draining,
    Done,
}

/// What the source path is on disk.
#[derive(Debug, Clone, Copy, PartialEq, Eq, Structural)]
pub enum SourceKind {
    File,
    Directory,
    Missing,
}

/// What is wrong with the configuration of a run.
#[derive(Debug, Clone, Copy, PartialEq, Eq, Structural)]
pub enum ConfigFault {
    DestinationNotDirectory,
    SourceMissing,
    InvalidFileName,
}

/// An error that ends the run.
#[derive(Debug)]
pub enum RunError {
    /// The run was refused before anything was read or written.
    Config(ConfigFault),
    /// The source tree could not be enumerated.
    Discovery(String),
    /// A destination directory could not be created.
    FileSystem(String),
    /// The one conversion of a single-file run failed.
    Conversion(TaskError),
}

/// What the outside world reports to the run.
#[derive(Debug)]
pub enum Event {
    /// The configuration has been read.
    Configured,
    /// Destination and source have been looked at.
    Probed { destination_is_dir: bool, source: SourceKind },
    /// The one conversion of a single-file run has ended.
    Converted(Result<(), TaskError>),
    /// The walk produced an entry.
    Found(Entry),
    /// The walk failed.
    WalkFailed(String),
    /// A destination directory could not be created.
    DirectoryFailed(String),
    /// The walk has no more entries.
    WalkFinished,
    /// One spawned conversion has ended.
    TaskJoined(ConversionOutcome),
}

/// What the run asks for next.
#[derive(Debug)]
pub enum Action {
    /// Look at destination and source, and report `Probed`.
    Probe,
    /// Convert this one file now, and report `Converted`.
    Convert(ConversionTask),
    /// Create this directory unless it exists, then go on walking.
    EnsureDirectory(TreePath),
    /// Start this conversion without waiting for it, then go on walking.
    Spawn(ConversionTask),
    /// Go on walking.
    Next,
    /// Expect `total` conversions to end, and report each as `TaskJoined`.
    Drain { total: u64 },
    /// Advance the progress display by one, after printing `failure` where
    /// there is one.
    Report { failure: Option<String> },
    /// The run is over.
    Finish,
    /// The run is over, with this error.
    Abort(RunError),
    /// The event does not belong to the phase the run is in; nothing changed.
    Rejected,
}

/// The counters and the phase of a run.
#[derive(Debug, Clone, Copy, PartialEq, Eq, Structural)]
pub struct Run {
    pub phase: Phase,
    /// Conversions started.
    pub spawned: u64,
    /// Conversions whose outcome has been observed.
    pub completed: u64,
    /// Observed outcomes that were failures.
    pub failed: u64,
}

impl TaskError {
    /// The text shown for this error.
    pub open spec fn message_text(&self) -> Seq<char> {
        match self {
            TaskError::FileSystem(m) => m@,
            TaskError::Translation(e) => e.message_text(),
        }
    }

    /// The text shown for this error.
    pub fn message(&self) -> (r: String)
        ensures
            r@ == self.message_text(),
    {
        match self {
            TaskError::FileSystem(m) => m.clone(),
            TaskError::Translation(e) => e.message(),
        }
    }
}

/// The line printed for a failed conversion: the destination, then the cause.
pub open spec fn failure_line(destination: Seq<Seq<char>>, cause: Seq<char>) -> Seq<char> {
    joined(destination) + ": "@ + cause
}

impl ConversionOutcome {
    /// The line to print for this outcome: none for a success.
    pub open spec fn report_text(&self) -> Option<Seq<char>> {
        match self {
            ConversionOutcome::Success => None,
            ConversionOutcome::Failure { error, destination_path } => Some(
                failure_line(destination_path@, error.message_text()),
            ),
        }
    }

    /// The line to print for this outcome: none for a success.
    pub fn report(&self) -> (r: Option<String>)
        ensures
            match r {
                Some(line) => self.report_text() == Some(line@),
                None => self.report_text() is None,
            },
    {
        match self {
            ConversionOutcome::Success => None,
            ConversionOutcome::Failure { error, destination_path } => {
                let mut line = destination_path.display();
                line.append(": ");
                line.append(error.message().as_str());
                Some(line)
            },
        }
    }
}

impl RunError {
    /// The text shown for this error in a run configured by `config`.
    pub open spec fn message_text(&self, config: &RunConfig) -> Seq<char> {
        match self {
            RunError::Config(ConfigFault::DestinationNotDirectory) => joined(
                config.destination_root@,
            ) + ": Not a directory"@,
            RunError::Config(ConfigFault::SourceMissing) => joined(config.source_root@)
                + ": No such file or directory"@,
            RunError::Config(ConfigFault::InvalidFileName) => "Invalid file name"@,
            RunError::Discovery(m) => m@,
            RunError::FileSystem(m) => m@,
            RunError::Conversion(e) => e.message_text(),
        }
    }

    /// The text shown for this error in a run configured by `config`.
    pub fn message(&self, config: &RunConfig) -> (r: String)
        ensures
            r@ == self.message_text(config),
    {
        match self {
            RunError::Config(fault) => match fault {
                ConfigFault::DestinationNotDirectory => {
                    let mut text = config.destination_root.display();
                    text.append(": Not a directory");
                    text
                },
                ConfigFault::SourceMissing => {
                    let mut text = config.source_root.display();
                    text.append(": No such file or directory");
                    text
                },
                ConfigFault::InvalidFileName => String::from_str("Invalid file name"),
            },
            RunError::Discovery(m) => m.clone(),
            RunError::FileSystem(m) => m.clone(),
            RunError::Conversion(e) => e.message(),
        }
    }
}

/// The outcome of `task`, given how its conversion ended: an error is kept
/// together with the destination it was meant for.
pub fn task_outcome(task: ConversionTask, result: Result<(), TaskError>) -> (r: ConversionOutcome)
    ensures
        match result {
            Ok(_) => r is Success,
            Err(e) => r matches ConversionOutcome::Failure { error, destination_path } && error
                == e && destination_path == task.destination_path,
        },
{
    match result {
        Ok(_) => ConversionOutcome::Success,
        Err(error) => ConversionOutcome::Failure { error, destination_path: task.destination_path },
    }
}

impl RunConfig {
    /// A configuration that converts `java` files to `php` files.
    pub fn new(source_root: TreePath, destination_root: TreePath, credential: String) -> (r:
        RunConfig)
        ensures
            r.source_root == source_root,
            r.destination_root == destination_root,
            r.credential == credential,
            r.source_extension@ == "java"@,
            r.output_extension@ == "php"@,
    {
        RunConfig {
            source_root,
            destination_root,
            credential,
            source_extension: String::from_str("java"),
            output_extension: String::from_str("php"),
        }
    }
}

/// The step out of `Validating`. A destination that is no directory ends the
/// run at once, whatever the source is.
pub open spec fn probe_step(
    pre: Run,
    config: &RunConfig,
    destination_is_dir: bool,
    source: SourceKind,
    post: Run,
    action: Action,
) -> bool {
    &&& post.spawned == pre.spawned
    &&& post.completed == pre.completed
    &&& post.failed == pre.failed
    &&& if !destination_is_dir {
        post.phase == Phase::Done && action matches Action::Abort(
            RunError::Config(ConfigFault::DestinationNotDirectory),
        )
    } else {
        match source {
            SourceKind::Missing => post.phase == Phase::Done && action matches Action::Abort(
                RunError::Config(ConfigFault::SourceMissing),
            ),
            SourceKind::Directory => post.phase == Phase::TreeWalk && action matches Action::Next,
            SourceKind::File => match single_destination(
                config.destination_root@,
                config.source_root@,
                config.output_extension@,
            ) {
                Some(d) => post.phase == Phase::SingleFile && (action matches Action::Convert(t)
                    && t.source_path@ == config.source_root@ && t.destination_path@ == d),
                None => post.phase == Phase::Done && action matches Action::Abort(
                    RunError::Config(ConfigFault::InvalidFileName),
                ),
            },
        }
    }
}

/// What is said of an entry that does not lie under the source root.
pub open spec fn outside_root_text() -> Seq<char> {
    "entry outside the source root"@
}

/// The step for one entry of the walk. A directory is mirrored, a file with
/// the source extension becomes a task, anything else is passed over; an
/// entry outside the source root ends the run.
pub open spec fn entry_step(pre: Run, config: &RunConfig, entry: Entry, post: Run, action: Action) -> bool {
    let src = config.source_root@;
    let dst = config.destination_root@;
    &&& post.completed == pre.completed
    &&& post.failed == pre.failed
    &&& match entry.kind {
        EntryKind::Other => post.phase == pre.phase && post.spawned == pre.spawned
            && action matches Action::Next,
        EntryKind::Directory => match mapped_dir(src, dst, entry.path@) {
            Some(d) => post.phase == pre.phase && post.spawned == pre.spawned
                && (action matches Action::EnsureDirectory(p) && p@ == d),
            None => post.phase == Phase::Done && post.spawned == pre.spawned
                && (action matches Action::Abort(RunError::Discovery(t)) && t@ == outside_root_text()),
        },
        EntryKind::File => if entry.path@.len() > 0 && extension(entry.path@.last()) == Some(
            config.source_extension@,
        ) {
            match mapped_file(src, dst, entry.path@, config.output_extension@) {
                Some(d) => post.phase == pre.phase && post.spawned == pre.spawned + 1
                    && (action matches Action::Spawn(t) && t.source_path@ == entry.path@
                    && t.destination_path@ == d),
                None => post.phase == Phase::Done && post.spawned == pre.spawned
                    && (action matches Action::Abort(RunError::Discovery(t)) && t@
                    == outside_root_text()),
            }
        } else {
            post.phase == pre.phase && post.spawned == pre.spawned && action matches Action::Next
        },
    }
}

/// The step for one observed outcome. It is counted, a failure is counted
/// and reported, and the run is done with the last one; a failure changes
/// nothing else.
pub open spec fn join_step(pre: Run, outcome: ConversionOutcome, post: Run, action: Action) -> bool {
    &&& post.spawned == pre.spawned
    &&& post.completed == pre.completed + 1
    &&& post.failed == pre.failed + if outcome is Failure { 1int } else { 0int }
    &&& post.phase == if pre.completed + 1 == pre.spawned {
        Phase::Done
    } else {
        Phase::Draining
    }
    &&& (action matches Action::Report { failure } && match failure {
        Some(line) => outcome.report_text() == Some(line@),
        None => outcome.report_text() is None,
    })
}

/// The state that `event` moves the run `pre` to. An event that does not
/// belong to the phase of `pre` leaves it as it is.
pub open spec fn next_state(pre: Run, config: &RunConfig, event: Event) -> Run {
    let src = config.source_root@;
    let dst = config.destination_root@;
    let done = Run { phase: Phase::Done, ..pre };
    match (pre.phase, event) {
        (Phase::Init, Event::Configured) => Run { phase: Phase::Validating, ..pre },
        (Phase::Validating, Event::Probed { destination_is_dir, source }) => {
            if !destination_is_dir {
                done
            } else {
                match source {
                    SourceKind::Missing => done,
                    SourceKind::Directory => Run { phase: Phase::TreeWalk, ..pre },
                    SourceKind::File => if src.len() > 0 {
                        Run { phase: Phase::SingleFile, ..pre }
                    } else {
                        done
                    },
                }
            }
        },
        (Phase::SingleFile, Event::Converted(_)) => done,
        (Phase::TreeWalk, Event::Found(entry)) => {
            if entry.kind == EntryKind::Directory {
                if src.is_prefix_of(entry.path@) {
                    pre
                } else {
                    done
                }
            } else if entry.kind == EntryKind::File && included(
                entry.kind,
                entry.path@,
                config.source_extension@,
            ) {
                if src.is_prefix_of(entry.path@) && src.len() < entry.path@.len() {
                    Run { spawned: (pre.spawned + 1) as u64, ..pre }
                } else {
                    done
                }
            } else {
                pre
            }
        },
        (Phase::TreeWalk, Event::WalkFailed(_)) => done,
        (Phase::TreeWalk, Event::DirectoryFailed(_)) => done,
        (Phase::TreeWalk, Event::WalkFinished) => if pre.spawned == 0 {
            done
        } else {
            Run { phase: Phase::Draining, ..pre }
        },
        (Phase::Draining, Event::TaskJoined(outcome)) => Run {
            phase: if pre.completed + 1 == pre.spawned {
                Phase::Done
            } else {
                Phase::Draining
            },
            completed: (pre.completed + 1) as u64,
            failed: if outcome is Failure {
                (pre.failed + 1) as u64
            } else {
                pre.failed
            },
            ..pre
        },
        _ => pre,
    }
}

/// The state after the entries of `walk` have been reported in order.
pub open spec fn after_walk(pre: Run, config: &RunConfig, walk: Seq<Entry>) -> Run
    decreases walk.len(),
{
    if walk.len() == 0 {
        pre
    } else {
        next_state(after_walk(pre, config, walk.drop_last()), config, Event::Found(walk.last()))
    }
}

/// How many entries of `walk` are files with the extension `ext`.
pub open spec fn matching_files(walk: Seq<Entry>, ext: Seq<char>) -> nat
    decreases walk.len(),
{
    if walk.len() == 0 {
        0
    } else {
        let last = walk.last();
        matching_files(walk.drop_last(), ext) + if last.kind == EntryKind::File && included(
            last.kind,
            last.path@,
            ext,
        ) {
            1nat
        } else {
            0nat
        }
    }
}

/// Every entry of `walk` lies under the source root, the files strictly
/// below it.
pub open spec fn under_root(config: &RunConfig, walk: Seq<Entry>) -> bool {
    forall|i: int|
        0 <= i < walk.len() ==> config.source_root@.is_prefix_of((#[trigger] walk[i]).path@) && (
        walk[i].kind == EntryKind::File ==> config.source_root@.len() < walk[i].path@.len())
}

/// The state after the outcomes in `outcomes` have been reported in order.
pub open spec fn after_joins(pre: Run, config: &RunConfig, outcomes: Seq<ConversionOutcome>) -> Run
    decreases outcomes.len(),
{
    if outcomes.len() == 0 {
        pre
    } else {
        next_state(
            after_joins(pre, config, outcomes.drop_last()),
            config,
            Event::TaskJoined(outcomes.last()),
        )
    }
}

/// How many of `outcomes` are failures.
pub open spec fn failures(outcomes: Seq<ConversionOutcome>) -> nat
    decreases outcomes.len(),
{
    if outcomes.len() == 0 {
        0
    } else {
        failures(outcomes.drop_last()) + if outcomes.last() is Failure {
            1nat
        } else {
            0nat
        }
    }
}

/// A walk under the source root starts exactly one conversion for each of
/// its files with the source extension, and none for anything else; it
/// leaves the run walking.
pub proof fn lemma_one_task_per_matching_file(pre: Run, config: &RunConfig, walk: Seq<Entry>)
    requires
        pre.phase == Phase::TreeWalk,
        under_root(config, walk),
        pre.spawned + walk.len() <= u64::MAX,
    ensures
        matching_files(walk, config.source_extension@) <= walk.len(),
        after_walk(pre, config, walk) == (Run {
            spawned: (pre.spawned + matching_files(walk, config.source_extension@)) as u64,
            ..pre
        }),
    decreases walk.len(),
{
    if walk.len() > 0 {
        let init = walk.drop_last();
        assert forall|i: int| 0 <= i < init.len() implies config.source_root@.is_prefix_of(
            (#[trigger] init[i]).path@,
        ) && (init[i].kind == EntryKind::File ==> config.source_root@.len()
            < init[i].path@.len()) by {
            assert(init[i] == walk[i]);
        }
        lemma_one_task_per_matching_file(pre, config, init);
        assert(walk.last() == walk[walk.len() - 1]);
    }
}

/// Every reported outcome is counted once, a failure among the failures
/// too, whatever the outcomes before it were; the run is done exactly when
/// the last awaited outcome has been reported.
pub proof fn lemma_every_outcome_is_counted(
    pre: Run,
    config: &RunConfig,
    outcomes: Seq<ConversionOutcome>,
)
    requires
        pre.wf(),
        pre.phase == Phase::Draining,
        outcomes.len() <= pre.spawned - pre.completed,
    ensures
        failures(outcomes) <= outcomes.len(),
        after_joins(pre, config, outcomes) == (Run {
            phase: if outcomes.len() == pre.spawned - pre.completed {
                Phase::Done
            } else {
                Phase::Draining
            },
            completed: (pre.completed + outcomes.len()) as u64,
            failed: (pre.failed + failures(outcomes)) as u64,
            ..pre
        }),
    decreases outcomes.len(),
{
    if outcomes.len() > 0 {
        lemma_every_outcome_is_counted(pre, config, outcomes.drop_last());
    }
}

/// A destination that is no directory ends the run with a configuration
/// error before anything is converted, whatever the source is.
pub proof fn lemma_bad_destination_fails_fast(
    pre: Run,
    config: &RunConfig,
    source: SourceKind,
    post: Run,
    action: Action,
)
    requires
        probe_step(pre, config, false, source, post, action),
    ensures
        post.phase == Phase::Done,
        post.spawned == pre.spawned,
        action matches Action::Abort(RunError::Config(ConfigFault::DestinationNotDirectory)),
{
}

/// A file whose extension is not the source extension starts no conversion
/// and has no destination asked for: the walk just goes on.
pub proof fn lemma_unmatched_file_is_passed_over(
    pre: Run,
    config: &RunConfig,
    entry: Entry,
    post: Run,
    action: Action,
)
    requires
        entry.kind == EntryKind::File,
        !included(entry.kind, entry.path@, config.source_extension@),
        entry_step(pre, config, entry, post, action),
    ensures
        post == pre,
        action matches Action::Next,
{
}

/// A file with the source extension that lies below the source root starts
/// exactly one conversion, to the destination that mirrors it.
pub proof fn lemma_matched_file_is_spawned(
    pre: Run,
    config: &RunConfig,
    entry: Entry,
    post: Run,
    action: Action,
)
    requires
        entry.kind == EntryKind::File,
        included(entry.kind, entry.path@, config.source_extension@),
        config.source_root@.is_prefix_of(entry.path@),
        config.source_root@.len() < entry.path@.len(),
        entry_step(pre, config, entry, post, action),
    ensures
        post.phase == pre.phase,
        post.spawned == pre.spawned + 1,
        action matches Action::Spawn(t) && t.source_path@ == entry.path@ && Some(
            t.destination_path@,
        ) == mapped_file(
            config.source_root@,
            config.destination_root@,
            entry.path@,
            config.output_extension@,
        ),
{
}

/// A directory below the source root asks for its mirror to be there before
/// the walk goes on, and starts no conversion.
pub proof fn lemma_directory_is_mirrored(
    pre: Run,
    config: &RunConfig,
    entry: Entry,
    post: Run,
    action: Action,
)
    requires
        entry.kind == EntryKind::Directory,
        config.source_root@.is_prefix_of(entry.path@),
        entry_step(pre, config, entry, post, action),
    ensures
        post == pre,
        action matches Action::EnsureDirectory(p) && Some(p@) == mapped_dir(
            config.source_root@,
            config.destination_root@,
            entry.path@,
        ),
{
}

/// In a walk that lists directories before their files, the directory that
/// a file is written into has been asked for, as the mirror of an earlier
/// entry, before the file's conversion is started.
pub proof fn lemma_mirror_precedes_file(
    source_root: Seq<Seq<char>>,
    destination_root: Seq<Seq<char>>,
    walk: Seq<(EntryKind, Seq<Seq<char>>)>,
    i: int,
    ext: Seq<char>,
)
    requires
        parents_first(walk),
        0 <= i < walk.len(),
        walk[i].0 == EntryKind::File,
        source_root.is_prefix_of(walk[i].1),
        source_root.len() < walk[i].1.len(),
    ensures
        mapped_file(source_root, destination_root, walk[i].1, ext) is Some,
        exists|j: int|
            0 <= j < i && (#[trigger] walk[j]).0 == EntryKind::Directory && mapped_dir(
                source_root,
                destination_root,
                walk[j].1,
            ) == Some(
                mapped_file(source_root, destination_root, walk[i].1, ext).unwrap().drop_last(),
            ),
{
    lemma_mapping_total(source_root, destination_root, walk[i].1, ext);
    let j = choose|j: int|
        0 <= j < i && #[trigger] walk[j] == (EntryKind::Directory, walk[i].1.drop_last());
    assert(walk[j].0 == EntryKind::Directory && walk[j].1 == walk[i].1.drop_last());
}

/// A failed conversion moves the run exactly as a successful one does, but
/// for the count of failures: it neither ends the run early nor touches the
/// conversions still awaited.
pub proof fn lemma_failure_is_local(
    pre: Run,
    failure: ConversionOutcome,
    after_failure: Run,
    reported: Action,
    after_success: Run,
    passed: Action,
)
    requires
        failure is Failure,
        join_step(pre, failure, after_failure, reported),
        join_step(pre, ConversionOutcome::Success, after_success, passed),
    ensures
        after_failure.phase == after_success.phase,
        after_failure.spawned == after_success.spawned,
        after_failure.completed == after_success.completed,
        after_failure.failed == after_success.failed + 1,
        reported matches Action::Report { failure: Some(_) },
        passed matches Action::Report { failure: None },
{
}

impl Run {
    /// The counters agree with each other and with the phase.
    pub open spec fn wf(&self) -> bool {
        &&& self.failed <= self.completed <= self.spawned
        &&& (self.phase is Init || self.phase is Validating || self.phase is SingleFile)
            ==> self.spawned == 0
        &&& self.phase is TreeWalk ==> self.completed == 0
        &&& self.phase is Draining ==> self.completed < self.spawned
    }

    /// A run that has not started.
    pub fn new() -> (r: Run)
        ensures
            r.wf(),
            r.phase == Phase::Init,
            r.spawned == 0,
            r.completed == 0,
            r.failed == 0,
    {
        Run { phase: Phase::Init, spawned: 0, completed: 0, failed: 0 }
    }

    /// Whether the run is over.
    pub fn is_done(&self) -> (r: bool)
        ensures
            r == (self.phase == Phase::Done),
    {
        self.phase == Phase::Done
    }

    /// Whether any observed conversion failed.
    pub fn any_failed(&self) -> (r: bool)
        ensures
            r == (self.failed > 0),
    {
        self.failed > 0
    }

    fn on_probe(&mut self, config: &RunConfig, destination_is_dir: bool, source: SourceKind) -> (action:
        Action)
        requires
            old(self).wf(),
            old(self).phase == Phase::Validating,
        ensures
            final(self).wf(),
            probe_step(*old(self), config, destination_is_dir, source, *final(self), action),
    {
        if !destination_is_dir {
            self.phase = Phase::Done;
            return Action::Abort(RunError::Config(ConfigFault::DestinationNotDirectory));
        }
        match source {
            SourceKind::Missing => {
                self.phase = Phase::Done;
                Action::Abort(RunError::Config(ConfigFault::SourceMissing))
            },
            SourceKind::Directory => {
                self.phase = Phase::TreeWalk;
                Action::Next
            },
            SourceKind::File => match single_file_destination(
                &config.destination_root,
                &config.source_root,
                config.output_extension.as_str(),
            ) {
                Ok(destination_path) => {
                    let mut source_path = TreePath::new();
                    source_path.extend_from(&config.source_root, 0, config.source_root.len());
                    assert(source_path@ =~= config.source_root@);
                    self.phase = Phase::SingleFile;
                    Action::Convert(ConversionTask { source_path, destination_path })
                },
                Err(_) => {
                    self.phase = Phase::Done;
                    Action::Abort(RunError::Config(ConfigFault::InvalidFileName))
                },
            },
        }
    }

    fn on_entry(&mut self, config: &RunConfig, entry: Entry) -> (action: Action)
        requires
            old(self).wf(),
            old(self).phase == Phase::TreeWalk,
            old(self).spawned < u64::MAX,
        ensures
            final(self).wf(),
            entry_step(*old(self), config, entry, *final(self), action),
    {
        match entry.kind {
            EntryKind::Other => Action::Next,
            EntryKind::Directory => match map_dir(
                &config.source_root,
                &config.destination_root,
                &entry.path,
            ) {
                Ok(p) => Action::EnsureDirectory(p),
                Err(_) => {
                    self.phase = Phase::Done;
                    Action::Abort(
                        RunError::Discovery(String::from_str("entry outside the source root")),
                    )
                },
            },
            EntryKind::File => {
                if !include_entry(&entry, config.source_extension.as_str()) {
                    return Action::Next;
                }
                match map_file(
                    &config.source_root,
                    &config.destination_root,
                    &entry.path,
                    config.output_extension.as_str(),
                ) {
                    Ok(destination_path) => {
                        self.spawned = self.spawned + 1;
                        Action::Spawn(ConversionTask { source_path: entry.path, destination_path })
                    },
                    Err(_) => {
                        self.phase = Phase::Done;
                        Action::Abort(
                            RunError::Discovery(String::from_str("entry outside the source root")),
                        )
                    },
                }
            },
        }
    }

    fn on_joined(&mut self, outcome: ConversionOutcome) -> (action: Action)
        requires
            old(self).wf(),
            old(self).phase == Phase::Draining,
        ensures
            final(self).wf(),
            join_step(*old(self), outcome, *final(self), action),
    {
        let failure = outcome.report();
        if failure.is_some() {
            self.failed = self.failed + 1;
        }
        self.completed = self.completed + 1;
        if self.completed == self.spawned {
            self.phase = Phase::Done;
        }
        Action::Report { failure }
    }

    /// Moves the run on by one event and says what to do next.
    ///
    /// The counters stay consistent, `completed` never decreases, and an
    /// event that does not belong to the current phase leaves the run as it
    /// was.
    pub fn step(&mut self, config: &RunConfig, event: Event) -> (action: Action)
        requires
            old(self).wf(),
            old(self).spawned < u64::MAX,
        ensures
            final(self).wf(),
            *final(self) == next_state(*old(self), config, event),
            final(self).completed >= old(self).completed,
            final(self).spawned >= old(self).spawned,
            match (old(self).phase, event) {
                (Phase::Init, Event::Configured) => *final(self) == (Run {
                    phase: Phase::Validating,
                    ..*old(self)
                }) && action matches Action::Probe,
                (Phase::Validating, Event::Probed { destination_is_dir, source }) => probe_step(
                    *old(self),
                    config,
                    destination_is_dir,
                    source,
                    *final(self),
                    action,
                ),
                (Phase::SingleFile, Event::Converted(result)) => *final(self) == (Run {
                    phase: Phase::Done,
                    ..*old(self)
                }) && match result {
                    Ok(_) => action matches Action::Finish,
                    Err(e) => (action matches Action::Abort(RunError::Conversion(f)) && f == e),
                },
                (Phase::TreeWalk, Event::Found(entry)) => entry_step(
                    *old(self),
                    config,
                    entry,
                    *final(self),
                    action,
                ),
                (Phase::TreeWalk, Event::WalkFailed(m)) => *final(self) == (Run {
                    phase: Phase::Done,
                    ..*old(self)
                }) && (action matches Action::Abort(RunError::Discovery(t)) && t@ == m@),
                (Phase::TreeWalk, Event::DirectoryFailed(m)) => *final(self) == (Run {
                    phase: Phase::Done,
                    ..*old(self)
                }) && (action matches Action::Abort(RunError::FileSystem(t)) && t@ == m@),
                (Phase::TreeWalk, Event::WalkFinished) => *final(self) == (Run {
                    phase: if old(self).spawned == 0 {
                        Phase::Done
                    } else {
                        Phase::Draining
                    },
                    ..*old(self)
                }) && (action matches Action::Drain { total } && total == old(self).spawned),
                (Phase::Draining, Event::TaskJoined(outcome)) => join_step(
                    *old(self),
                    outcome,
                    *final(self),
                    action,
                ),
                _ => *final(self) == *old(self) && action matches Action::Rejected,
            },
    {
        match self.phase {
            Phase::Init => match event {
                Event::Configured => {
                    self.phase = Phase::Validating;
                    Action::Probe
                },
                _ => Action::Rejected,
            },
            Phase::Validating => match event {
                Event::Probed { destination_is_dir, source } => self.on_probe(
                    config,
                    destination_is_dir,
                    source,
                ),
                _ => Action::Rejected,
            },
            Phase::SingleFile => match event {
                Event::Converted(result) => {
                    self.phase = Phase::Done;
                    match result {
                        Ok(_) => Action::Finish,
                        Err(e) => Action::Abort(RunError::Conversion(e)),
                    }
                },
                _ => Action::Rejected,
            },
            Phase::TreeWalk => match event {
                Event::Found(entry) => self.on_entry(config, entry),
                Event::WalkFailed(m) => {
                    self.phase = Phase::Done;
                    Action::Abort(RunError::Discovery(m))
                },
                Event::DirectoryFailed(m) => {
                    self.phase = Phase::Done;
                    Action::Abort(RunError::FileSystem(m))
                },
                Event::WalkFinished => {
                    self.phase = if self.spawned == 0 {
                        Phase::Done
                    } else {
                        Phase::Draining
                    };
                    Action::Drain { total: self.spawned }
                },
                _ => Action::Rejected,
            },
            Phase::Draining => match event {
                Event::TaskJoined(outcome) => self.on_joined(outcome),
                _ => Action::Rejected,
            },
            Phase::Done => Action::Rejected,
        }
    }
}

} // verus!
