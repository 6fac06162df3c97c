//! The rules of a synchronisation run, as functions on mathematical values:
//! in which state a run begins, and which state and which action follow each
//! event. Between runs there is no state: a run takes the lock, works through
//! the new videos oldest first, and ends as finished or aborted with the lock
//! released, unless it finds the lock held or cannot persist its record.

use crate::acquire::{file_name, planned};
use crate::catalog::{catalog_query, resolved_catalog, RecordView, VideoView};
use crate::config::ConfigView;
use crate::log::rolling_log_text;
use crate::order::{arranged, ascending, lemma_arranged};
use crate::select::selection;
use crate::time::{TimeError, Timestamp};
use vstd::prelude::*;

verus! {

/// Where a run stands. In every phase but the last five the run waits for
/// the outcome of the action it asked for last.
#[derive(Clone, Copy, Debug, PartialEq, Eq, Structural)]
pub enum Phase {
    /// First use: the placeholder record is being persisted.
    Bootstrapping,
    /// The record with the lock taken is being persisted.
    Locking,
    /// The catalogue is being fetched.
    Fetching,
    /// The media of the current video is being requested.
    Requesting,
    /// The target file of the current video is being created.
    Creating,
    /// The media is being written to the target file.
    Streaming,
    /// The partly written target file is being removed.
    Removing,
    /// The record with the advanced checkpoint is being persisted.
    Advancing,
    /// The log file is being read.
    ReadingLog,
    /// The log file is being written.
    WritingLog,
    /// The record of a successful run is being persisted.
    Finishing,
    /// The record with the lock released after a failure is being persisted.
    Aborting,
    /// Every selected video was downloaded.
    Finished,
    /// A failure ended the run; the lock is released.
    Aborted,
    /// Another run held the lock; nothing was touched.
    Skipped,
    /// The placeholder record was written; an operator has to fill it in.
    Unconfigured,
    /// The record could not be persisted; what the store holds is unknown.
    Halted,
}

impl Phase {
    /// The phases in which the record that the run holds shows the lock as taken.
    pub open spec fn holds_lock(self) -> bool {
        self == Phase::Locking || self == Phase::Fetching || self == Phase::Requesting || self
            == Phase::Creating || self == Phase::Streaming || self == Phase::Removing || self
            == Phase::Advancing || self == Phase::ReadingLog || self == Phase::WritingLog
            || self == Phase::Skipped
    }

    /// The phases in which the record that the run holds shows the lock as free.
    pub open spec fn has_released(self) -> bool {
        self == Phase::Finishing || self == Phase::Finished || self == Phase::Aborting || self
            == Phase::Aborted || self == Phase::Bootstrapping || self == Phase::Unconfigured
    }

    /// The phases in which the run works on the current video.
    pub open spec fn on_item(self) -> bool {
        self == Phase::Requesting || self == Phase::Creating || self == Phase::Streaming || self
            == Phase::Removing
    }

    /// The phases before any video is queued.
    pub open spec fn before_queue(self) -> bool {
        self == Phase::Bootstrapping || self == Phase::Unconfigured || self == Phase::Skipped
            || self == Phase::Locking || self == Phase::Fetching
    }

    /// The phases after the last video is downloaded.
    pub open spec fn after_queue(self) -> bool {
        self == Phase::ReadingLog || self == Phase::WritingLog || self == Phase::Finishing
            || self == Phase::Finished
    }
}

/// What ended a run early.
#[derive(Clone, Copy, Debug, PartialEq, Eq, Structural)]
pub enum Failure {
    /// The catalogue could not be fetched or read.
    Catalog,
    /// A record of the catalogue has a publish time that denotes no single instant.
    PublishTime(TimeError),
    /// The current video is not offered in the configured tier.
    MissingVariant,
    /// The request for the media failed.
    Request,
    /// The target file could not be created.
    CreateFile,
    /// The transfer broke off; the partly written file was removed.
    Transfer,
    /// The transfer broke off and the partly written file could not be removed.
    RemovePartial,
    /// The log file could not be read or written.
    Log,
}

impl Failure {
    /// The failure concerns the video that was being downloaded.
    pub open spec fn of_item(self) -> bool {
        self == Failure::MissingVariant || self == Failure::Request || self == Failure::CreateFile
            || self == Failure::Transfer || self == Failure::RemovePartial
    }

    /// Whether the failure concerns the video that was being downloaded.
    pub fn concerns_item(&self) -> (r: bool)
        ensures
            r == self.of_item(),
    {
        match self {
            Failure::MissingVariant => true,
            Failure::Request => true,
            Failure::CreateFile => true,
            Failure::Transfer => true,
            Failure::RemovePartial => true,
            _ => false,
        }
    }
}

/// An event as mathematical values.
pub enum EventView {
    Succeeded,
    Failed,
    Catalog(Seq<RecordView>),
    LogContent(Option<Seq<char>>),
}

/// An outcome as mathematical values.
pub enum OutcomeView {
    Finished { downloaded: nat },
    Aborted { failure: Failure, item: Option<Seq<char>> },
    AlreadyRunning,
    NotConfigured,
    Halted,
}

/// An action as mathematical values.
pub enum ActionView {
    Persist { config: ConfigView },
    Fetch { url: Seq<char> },
    Request { url: Seq<char> },
    Create { directory: Seq<char>, file_name: Seq<char> },
    Stream,
    Remove { directory: Seq<char>, file_name: Seq<char> },
    ReadLog { path: Seq<char> },
    WriteLog { path: Seq<char>, text: Seq<char> },
    Report(OutcomeView),
    Ignore,
}

/// A run as mathematical values.
pub struct RunView {
    pub phase: Phase,
    /// The record as the run holds it in memory.
    pub config: ConfigView,
    /// The clock reading taken when the run began.
    pub started_at: Timestamp,
    /// The videos to download, in the order in which they are downloaded.
    pub queue: Seq<VideoView>,
    /// How many videos of the queue are downloaded.
    pub done: nat,
    /// The target file of the current video exists and is not complete.
    pub partial_file: bool,
    /// What ended the run early, if anything did.
    pub failure: Option<Failure>,
}

/// The names of videos.
pub open spec fn titles(videos: Seq<VideoView>) -> Seq<Seq<char>> {
    videos.map_values(|video: VideoView| video.name)
}

impl RunView {
    /// What holds of a run at every moment: the parts of its state fit its phase.
    pub open spec fn well_formed(self) -> bool {
        &&& self.done <= self.queue.len()
        &&& ascending(self.queue)
        &&& self.phase.before_queue() ==> self.queue.len() == 0
        &&& self.phase.on_item() ==> self.has_current()
        &&& self.phase.after_queue() ==> self.done == self.queue.len()
        &&& self.phase == Phase::ReadingLog || self.phase == Phase::WritingLog
            ==> self.config.log_path is Some
        &&& self.phase.holds_lock() ==> self.config.locked
        &&& self.phase.has_released() ==> !self.config.locked
        &&& self.phase == Phase::Finishing || self.phase == Phase::Finished
            ==> self.config.checkpoint_time == self.started_at
        &&& self.phase == Phase::Aborting || self.phase == Phase::Aborted ==> self.failure is Some
        &&& self.failure is Some ==> self.phase == Phase::Aborting || self.phase == Phase::Aborted
            || self.phase == Phase::Halted
        &&& self.partial_file ==> self.phase == Phase::Streaming || self.phase == Phase::Removing
            || self.phase == Phase::Halted || self.failure == Some(Failure::RemovePartial)
    }

    /// A video is left to download.
    pub open spec fn has_current(self) -> bool {
        self.done < self.queue.len()
    }

    /// The video that is downloaded next or being downloaded.
    pub open spec fn current(self) -> VideoView {
        self.queue[self.done as int]
    }

    /// The videos downloaded so far, oldest first.
    pub open spec fn acquired(self) -> Seq<VideoView> {
        if self.done <= self.queue.len() {
            self.queue.take(self.done as int)
        } else {
            self.queue
        }
    }

    /// The name of the video that a failure concerns.
    pub open spec fn failed_item(self) -> Option<Seq<char>> {
        match self.failure {
            Some(failure) => if failure.of_item() && self.has_current() {
                Some(self.current().name)
            } else {
                None
            },
            None => None,
        }
    }

    /// The request to write the record that the run holds.
    pub open spec fn persist(self) -> (RunView, ActionView) {
        (self, ActionView::Persist { config: self.config })
    }

    /// The run is over: no event moves it any more.
    pub open spec fn is_over(self) -> bool {
        self.phase == Phase::Finished || self.phase == Phase::Aborted || self.phase
            == Phase::Skipped || self.phase == Phase::Unconfigured || self.phase == Phase::Halted
    }

    /// The record cannot be persisted: stop, and leave everything as it is.
    pub open spec fn halt(self) -> (RunView, ActionView) {
        (RunView { phase: Phase::Halted, ..self }, ActionView::Report(OutcomeView::Halted))
    }

    /// A failure ends the run: release the lock, keep the checkpoint where it
    /// is, and persist that.
    pub open spec fn abort(self, failure: Failure) -> (RunView, ActionView) {
        RunView {
            phase: Phase::Aborting,
            config: ConfigView { locked: false, ..self.config },
            failure: Some(failure),
            ..self
        }.persist()
    }

    /// Everything is downloaded and logged: move the checkpoint to the start
    /// of the run, release the lock, and persist that.
    pub open spec fn finish(self) -> (RunView, ActionView) {
        RunView {
            phase: Phase::Finishing,
            config: ConfigView { checkpoint_time: self.started_at, locked: false, ..self.config },
            ..self
        }.persist()
    }

    /// No video is left: bring the log up to date where one is configured,
    /// else finish.
    pub open spec fn wrap_up(self) -> (RunView, ActionView) {
        match self.config.log_path {
            Some(path) => (RunView { phase: Phase::ReadingLog, ..self }, ActionView::ReadLog { path }),
            None => self.finish(),
        }
    }

    /// Turn to the next video of the queue, or wrap up where none is left. A
    /// video that is not offered in the configured tier ends the run.
    pub open spec fn next_item(self) -> (RunView, ActionView) {
        if self.has_current() {
            match planned(self.current(), self.config.resolution, self.config.api_key) {
                Ok(plan) => (
                    RunView { phase: Phase::Requesting, ..self },
                    ActionView::Request { url: plan.url },
                ),
                Err(_) => self.abort(Failure::MissingVariant),
            }
        } else {
            self.wrap_up()
        }
    }

    /// The catalogue has arrived: queue the new videos that are not
    /// excluded, oldest first, and turn to the first. A record whose publish
    /// time denotes no single instant ends the run.
    pub open spec fn enqueue(self, records: Seq<RecordView>) -> (RunView, ActionView) {
        match resolved_catalog(records) {
            Err(e) => self.abort(Failure::PublishTime(e)),
            Ok(videos) => RunView {
                queue: arranged(
                    selection(videos, self.config.checkpoint_time, self.config.exclude_patterns),
                ),
                done: 0,
                ..self
            }.next_item(),
        }
    }

    /// The current video is on disk: it becomes the checkpoint, which is persisted.
    pub open spec fn advance(self) -> (RunView, ActionView) {
        RunView {
            phase: Phase::Advancing,
            config: ConfigView { checkpoint_time: self.current().publish_time, ..self.config },
            done: self.done + 1,
            partial_file: false,
            ..self
        }.persist()
    }

    /// The event changes nothing and asks for nothing.
    pub open spec fn ignore(self) -> (RunView, ActionView) {
        (self, ActionView::Ignore)
    }
}

/// How a run begins. Without a record, the placeholder is persisted and the
/// run goes no further. With the lock held, nothing happens at all. Otherwise
/// the lock is taken and persisted.
pub open spec fn start_model(loaded: Option<ConfigView>, now: Timestamp) -> (RunView, ActionView) {
    let fresh = RunView {
        phase: Phase::Bootstrapping,
        config: ConfigView::placeholder(now),
        started_at: now,
        queue: Seq::empty(),
        done: 0,
        partial_file: false,
        failure: None,
    };
    match loaded {
        None => fresh.persist(),
        Some(config) => if config.locked {
            (
                RunView { phase: Phase::Skipped, config, ..fresh },
                ActionView::Report(OutcomeView::AlreadyRunning),
            )
        } else {
            RunView {
                phase: Phase::Locking,
                config: ConfigView { locked: true, ..config },
                ..fresh
            }.persist()
        },
    }
}

/// The state that follows an event, and the action that the run asks for.
pub open spec fn step_model(s: RunView, e: EventView) -> (RunView, ActionView) {
    match s.phase {
        Phase::Bootstrapping => match e {
            EventView::Succeeded => (
                RunView { phase: Phase::Unconfigured, ..s },
                ActionView::Report(OutcomeView::NotConfigured),
            ),
            EventView::Failed => s.halt(),
            _ => s.ignore(),
        },
        Phase::Locking => match e {
            EventView::Succeeded => (
                RunView { phase: Phase::Fetching, ..s },
                ActionView::Fetch { url: catalog_query(s.config.api_key, "10"@) },
            ),
            EventView::Failed => s.halt(),
            _ => s.ignore(),
        },
        Phase::Fetching => match e {
            EventView::Catalog(records) => s.enqueue(records),
            EventView::Failed => s.abort(Failure::Catalog),
            _ => s.ignore(),
        },
        Phase::Requesting => match e {
            EventView::Succeeded => if s.has_current() {
                (
                    RunView { phase: Phase::Creating, ..s },
                    ActionView::Create {
                        directory: s.config.library_path,
                        file_name: file_name(s.current()),
                    },
                )
            } else {
                s.halt()
            },
            EventView::Failed => s.abort(Failure::Request),
            _ => s.ignore(),
        },
        Phase::Creating => match e {
            EventView::Succeeded => (
                RunView { phase: Phase::Streaming, partial_file: true, ..s },
                ActionView::Stream,
            ),
            EventView::Failed => s.abort(Failure::CreateFile),
            _ => s.ignore(),
        },
        Phase::Streaming => match e {
            EventView::Succeeded => if s.has_current() {
                s.advance()
            } else {
                s.halt()
            },
            EventView::Failed => if s.has_current() {
                (
                    RunView { phase: Phase::Removing, ..s },
                    ActionView::Remove {
                        directory: s.config.library_path,
                        file_name: file_name(s.current()),
                    },
                )
            } else {
                s.halt()
            },
            _ => s.ignore(),
        },
        Phase::Removing => match e {
            EventView::Succeeded => RunView { partial_file: false, ..s }.abort(Failure::Transfer),
            EventView::Failed => s.abort(Failure::RemovePartial),
            _ => s.ignore(),
        },
        Phase::Advancing => match e {
            EventView::Succeeded => s.next_item(),
            EventView::Failed => s.halt(),
            _ => s.ignore(),
        },
        Phase::ReadingLog => match e {
            EventView::LogContent(content) => match s.config.log_path {
                Some(path) => (
                    RunView { phase: Phase::WritingLog, ..s },
                    ActionView::WriteLog {
                        path,
                        text: rolling_log_text(titles(s.acquired()), content),
                    },
                ),
                None => s.halt(),
            },
            EventView::Failed => s.abort(Failure::Log),
            _ => s.ignore(),
        },
        Phase::WritingLog => match e {
            EventView::Succeeded => s.finish(),
            EventView::Failed => s.abort(Failure::Log),
            _ => s.ignore(),
        },
        Phase::Finishing => match e {
            EventView::Succeeded => (
                RunView { phase: Phase::Finished, ..s },
                ActionView::Report(OutcomeView::Finished { downloaded: s.done }),
            ),
            EventView::Failed => s.halt(),
            _ => s.ignore(),
        },
        Phase::Aborting => match e {
            EventView::Succeeded => match s.failure {
                Some(failure) => (
                    RunView { phase: Phase::Aborted, ..s },
                    ActionView::Report(OutcomeView::Aborted { failure, item: s.failed_item() }),
                ),
                None => s.halt(),
            },
            EventView::Failed => s.halt(),
            _ => s.ignore(),
        },
        Phase::Finished => s.ignore(),
        Phase::Aborted => s.ignore(),
        Phase::Skipped => s.ignore(),
        Phase::Unconfigured => s.ignore(),
        Phase::Halted => s.ignore(),
    }
}

/// Every run begins well-formed.
pub proof fn lemma_start_well_formed(loaded: Option<ConfigView>, now: Timestamp)
    ensures
        start_model(loaded, now).0.well_formed(),
{
}

/// No event takes a run out of the well-formed states.
pub proof fn lemma_step_well_formed(s: RunView, e: EventView)
    requires
        s.well_formed(),
    ensures
        step_model(s, e).0.well_formed(),
{
    if s.phase == Phase::Fetching {
        if let EventView::Catalog(records) = e {
            if let Ok(videos) = resolved_catalog(records) {
                let chosen = selection(
                    videos,
                    s.config.checkpoint_time,
                    s.config.exclude_patterns,
                );
                let queued = RunView { queue: arranged(chosen), done: 0, ..s };
                lemma_arranged(chosen);
                assert(step_model(s, e).0.queue == queued.queue);
            }
        }
    }
}

} // verus!
