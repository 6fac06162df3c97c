//! One synchronisation run as a state machine. The machine decides; its
//! caller does the work. `Run::start` and `Run::step` each hand back the next
//! thing to do, and the caller reports how that went as the next event.

use crate::acquire::{plan_acquisition, target_file_name};
use crate::catalog::{
    latest_videos_query, record_views, resolve_catalog, video_views, Video, VideoRecord,
};
use crate::config::{Config, ConfigView};
use crate::log::rolling_log;
use crate::machine::{
    lemma_start_well_formed, lemma_step_well_formed, start_model, step_model, titles,
    ActionView, EventView, OutcomeView, RunView,
};
use crate::order::oldest_first;
use crate::select::select;
use crate::text::{opt_text, texts};
use crate::time::Timestamp;
use vstd::prelude::*;

pub use crate::machine::{Failure, Phase};

verus! {

/// How the last action went.
#[derive(Debug)]
pub enum Event {
    /// The action succeeded and brought nothing back.
    Succeeded,
    /// The action failed.
    Failed,
    /// The fetch succeeded: the records of the catalogue, in its order.
    Catalog(Vec<VideoRecord>),
    /// The log file was read: its content, or `None` where there is no file.
    LogContent(Option<String>),
}

impl View for Event {
    type V = EventView;

    open spec fn view(&self) -> EventView {
        match self {
            Event::Succeeded => EventView::Succeeded,
            Event::Failed => EventView::Failed,
            Event::Catalog(records) => EventView::Catalog(record_views(records@)),
            Event::LogContent(content) => EventView::LogContent(opt_text(*content)),
        }
    }
}

/// How a run ended.
#[derive(Debug)]
pub enum Outcome {
    /// All selected videos were downloaded; their number.
    Finished { downloaded: usize },
    /// The run failed; the name of the video concerned, if one was.
    Aborted { failure: Failure, item: Option<String> },
    /// Another run holds the lock. This is a skip, not a failure.
    AlreadyRunning,
    /// The placeholder record was written; the process has to stop.
    NotConfigured,
    /// The record could not be persisted; the process has to stop.
    Halted,
}

impl View for Outcome {
    type V = OutcomeView;

    open spec fn view(&self) -> OutcomeView {
        match self {
            Outcome::Finished { downloaded } => OutcomeView::Finished {
                downloaded: *downloaded as nat,
            },
            Outcome::Aborted { failure, item } => OutcomeView::Aborted {
                failure: *failure,
                item: opt_text(*item),
            },
            Outcome::AlreadyRunning => OutcomeView::AlreadyRunning,
            Outcome::NotConfigured => OutcomeView::NotConfigured,
            Outcome::Halted => OutcomeView::Halted,
        }
    }
}

/// What the caller is to do next.
#[derive(Debug)]
pub enum Action {
    /// Write this record to the store. It is the record that the run holds.
    Persist { config: Config },
    /// Fetch the catalogue from this address.
    Fetch { url: String },
    /// Request the media at this address.
    Request { url: String },
    /// Create this file in this directory.
    Create { directory: String, file_name: String },
    /// Write the body of the response into the file just created.
    Stream,
    /// Remove this file from this directory.
    Remove { directory: String, file_name: String },
    /// Read the log file at this path.
    ReadLog { path: String },
    /// Replace the content of the log file at this path by this text.
    WriteLog { path: String, text: String },
    /// The run is over.
    Report(Outcome),
    /// The event answered nothing that the run had asked for: do nothing.
    Ignore,
}

impl View for Action {
    type V = ActionView;

    open spec fn view(&self) -> ActionView {
        match self {
            Action::Persist { config } => ActionView::Persist { config: config@ },
            Action::Fetch { url } => ActionView::Fetch { url: url@ },
            Action::Request { url } => ActionView::Request { url: url@ },
            Action::Create { directory, file_name } => ActionView::Create {
                directory: directory@,
                file_name: file_name@,
            },
            Action::Stream => ActionView::Stream,
            Action::Remove { directory, file_name } => ActionView::Remove {
                directory: directory@,
                file_name: file_name@,
            },
            Action::ReadLog { path } => ActionView::ReadLog { path: path@ },
            Action::WriteLog { path, text } => ActionView::WriteLog { path: path@, text: text@ },
            Action::Report(outcome) => ActionView::Report(outcome@),
            Action::Ignore => ActionView::Ignore,
        }
    }
}

/// A run in progress.
#[derive(Debug)]
pub struct Run {
    phase: Phase,
    config: Config,
    started_at: Timestamp,
    queue: Vec<Video>,
    done: usize,
    partial_file: bool,
    failure: Option<Failure>,
}

impl View for Run {
    type V = RunView;

    closed spec fn view(&self) -> RunView {
        RunView {
            phase: self.phase,
            config: self.config@,
            started_at: self.started_at,
            queue: video_views(self.queue@),
            done: self.done as nat,
            partial_file: self.partial_file,
            failure: self.failure,
        }
    }
}

/// The view of a record that may be absent.
pub open spec fn opt_config(config: Option<Config>) -> Option<ConfigView> {
    match config {
        Some(c) => Some(c@),
        None => None,
    }
}

impl Run {
    /// Begins a run with the record that the store holds, `None` where it
    /// holds none, and the reading of the clock.
    pub fn start(loaded: Option<Config>, now: Timestamp) -> (r: (Run, Action))
        ensures
            (r.0@, r.1@) == start_model(opt_config(loaded), now),
            r.0@.well_formed(),
    {
        proof {
            lemma_start_well_formed(opt_config(loaded), now);
        }
        let queue: Vec<Video> = Vec::new();
        assert(video_views(queue@) =~= Seq::empty());
        match loaded {
            None => {
                let run = Run {
                    phase: Phase::Bootstrapping,
                    config: Config::placeholder(now),
                    started_at: now,
                    queue,
                    done: 0,
                    partial_file: false,
                    failure: None,
                };
                let action = run.persist();
                (run, action)
            },
            Some(config) => {
                if config.locked {
                    (
                        Run {
                            phase: Phase::Skipped,
                            config,
                            started_at: now,
                            queue,
                            done: 0,
                            partial_file: false,
                            failure: None,
                        },
                        Action::Report(Outcome::AlreadyRunning),
                    )
                } else {
                    let mut config = config;
                    config.locked = true;
                    let run = Run {
                        phase: Phase::Locking,
                        config,
                        started_at: now,
                        queue,
                        done: 0,
                        partial_file: false,
                        failure: None,
                    };
                    let action = run.persist();
                    (run, action)
                }
            },
        }
    }

    /// Where the run stands.
    pub fn phase(&self) -> (r: Phase)
        ensures
            r == self@.phase,
    {
        self.phase
    }

    /// The record as the run holds it.
    pub fn config(&self) -> (r: &Config)
        ensures
            r@ == self@.config,
    {
        &self.config
    }

    /// The reading of the clock with which the run began.
    pub fn started_at(&self) -> (r: Timestamp)
        ensures
            r == self@.started_at,
    {
        self.started_at
    }

    /// How many videos are downloaded.
    pub fn downloaded(&self) -> (r: usize)
        ensures
            r == self@.done,
    {
        self.done
    }

    /// How many videos the run set out to download.
    pub fn queued(&self) -> (r: usize)
        ensures
            r == self@.queue.len(),
    {
        self.queue.len()
    }

    /// What ended the run early, if anything did.
    pub fn failure(&self) -> (r: Option<Failure>)
        ensures
            r == self@.failure,
    {
        self.failure
    }

    /// Whether the target file of the current video exists without being complete.
    pub fn partial_file(&self) -> (r: bool)
        ensures
            r == self@.partial_file,
    {
        self.partial_file
    }

    /// Whether the run is over, so that no event moves it any more.
    pub fn is_over(&self) -> (r: bool)
        ensures
            r == self@.is_over(),
    {
        match self.phase {
            Phase::Finished => true,
            Phase::Aborted => true,
            Phase::Skipped => true,
            Phase::Unconfigured => true,
            Phase::Halted => true,
            _ => false,
        }
    }

    /// The names of the videos downloaded so far, oldest first.
    pub fn acquired_titles(&self) -> (r: Vec<String>)
        ensures
            texts(r@) == titles(self@.acquired()),
    {
        let n: usize = if self.done <= self.queue.len() {
            self.done
        } else {
            self.queue.len()
        };
        let ghost wanted = titles(self@.acquired());
        let mut out: Vec<String> = Vec::new();
        let mut i: usize = 0;
        while i < n
            invariant
                i <= n,
                n <= self.queue.len(),
                out.len() == i,
                wanted == titles(video_views(self.queue@).take(n as int)),
                forall|k: int| 0 <= k < i ==> out@[k]@ == wanted[k],
            decreases n - i,
        {
            out.push(self.queue[i].name.clone());
            i += 1;
        }
        assert(texts(out@) =~= wanted);
        out
    }

    fn failed_item(&self) -> (r: Option<String>)
        ensures
            opt_text(r) == self@.failed_item(),
    {
        match self.failure {
            Some(failure) => {
                if failure.concerns_item() && self.done < self.queue.len() {
                    Some(self.queue[self.done].name.clone())
                } else {
                    None
                }
            },
            None => None,
        }
    }

    fn persist(&self) -> (action: Action)
        ensures
            (self@, action@) == self@.persist(),
    {
        Action::Persist { config: self.config.duplicate() }
    }

    fn halt(&mut self) -> (action: Action)
        ensures
            (final(self)@, action@) == old(self)@.halt(),
    {
        self.phase = Phase::Halted;
        Action::Report(Outcome::Halted)
    }

    fn abort(&mut self, failure: Failure) -> (action: Action)
        ensures
            (final(self)@, action@) == old(self)@.abort(failure),
    {
        self.phase = Phase::Aborting;
        self.config.locked = false;
        self.failure = Some(failure);
        self.persist()
    }

    fn finish(&mut self) -> (action: Action)
        ensures
            (final(self)@, action@) == old(self)@.finish(),
    {
        self.phase = Phase::Finishing;
        self.config.checkpoint_time = self.started_at;
        self.config.locked = false;
        self.persist()
    }

    fn wrap_up(&mut self) -> (action: Action)
        ensures
            (final(self)@, action@) == old(self)@.wrap_up(),
    {
        match &self.config.log_path {
            Some(path) => {
                let path = path.clone();
                self.phase = Phase::ReadingLog;
                Action::ReadLog { path }
            },
            None => self.finish(),
        }
    }

    fn next_item(&mut self) -> (action: Action)
        ensures
            (final(self)@, action@) == old(self)@.next_item(),
    {
        if self.done < self.queue.len() {
            assert(self@.current() == self.queue@[self.done as int]@);
            match plan_acquisition(&self.config, &self.queue[self.done]) {
                Ok(plan) => {
                    self.phase = Phase::Requesting;
                    Action::Request { url: plan.url }
                },
                Err(_) => self.abort(Failure::MissingVariant),
            }
        } else {
            self.wrap_up()
        }
    }

    fn enqueue(&mut self, records: Vec<VideoRecord>) -> (action: Action)
        ensures
            (final(self)@, action@) == old(self)@.enqueue(record_views(records@)),
    {
        match resolve_catalog(records) {
            Err(e) => self.abort(Failure::PublishTime(e)),
            Ok(videos) => {
                let chosen = select(videos, &self.config);
                self.queue = oldest_first(chosen);
                self.done = 0;
                self.next_item()
            },
        }
    }

    fn advance(&mut self) -> (action: Action)
        requires
            old(self)@.has_current(),
        ensures
            (final(self)@, action@) == old(self)@.advance(),
    {
        assert(video_views(self.queue@).len() == self.queue.len());
        assert(self@.current() == self.queue@[self.done as int]@);
        self.phase = Phase::Advancing;
        self.config.checkpoint_time = self.queue[self.done].publish_time;
        self.done = self.done + 1;
        self.partial_file = false;
        self.persist()
    }

    /// Takes the outcome of the last action and says what to do next. An
    /// event that does not answer the last action leaves the run as it is.
    pub fn step(&mut self, event: Event) -> (action: Action)
        ensures
            (final(self)@, action@) == step_model(old(self)@, event@),
            old(self)@.well_formed() ==> final(self)@.well_formed(),
    {
        proof {
            if self@.well_formed() {
                lemma_step_well_formed(self@, event@);
            }
        }
        match self.phase {
            Phase::Bootstrapping => match event {
                Event::Succeeded => {
                    self.phase = Phase::Unconfigured;
                    Action::Report(Outcome::NotConfigured)
                },
                Event::Failed => self.halt(),
                _ => Action::Ignore,
            },
            Phase::Locking => match event {
                Event::Succeeded => {
                    self.phase = Phase::Fetching;
                    Action::Fetch { url: latest_videos_query(self.config.api_key.as_str()) }
                },
                Event::Failed => self.halt(),
                _ => Action::Ignore,
            },
            Phase::Fetching => match event {
                Event::Catalog(records) => self.enqueue(records),
                Event::Failed => self.abort(Failure::Catalog),
                _ => Action::Ignore,
            },
            Phase::Requesting => match event {
                Event::Succeeded => {
                    if self.done < self.queue.len() {
                        assert(self@.current() == self.queue@[self.done as int]@);
                        self.phase = Phase::Creating;
                        Action::Create {
                            directory: self.config.library_path.clone(),
                            file_name: target_file_name(&self.queue[self.done]),
                        }
                    } else {
                        self.halt()
                    }
                },
                Event::Failed => self.abort(Failure::Request),
                _ => Action::Ignore,
            },
            Phase::Creating => match event {
                Event::Succeeded => {
                    self.phase = Phase::Streaming;
                    self.partial_file = true;
                    Action::Stream
                },
                Event::Failed => self.abort(Failure::CreateFile),
                _ => Action::Ignore,
            },
            Phase::Streaming => match event {
                Event::Succeeded => {
                    if self.done < self.queue.len() {
                        self.advance()
                    } else {
                        self.halt()
                    }
                },
                Event::Failed => {
                    if self.done < self.queue.len() {
                        assert(self@.current() == self.queue@[self.done as int]@);
                        self.phase = Phase::Removing;
                        Action::Remove {
                            directory: self.config.library_path.clone(),
                            file_name: target_file_name(&self.queue[self.done]),
                        }
                    } else {
                        self.halt()
                    }
                },
                _ => Action::Ignore,
            },
            Phase::Removing => match event {
                Event::Succeeded => {
                    self.partial_file = false;
                    self.abort(Failure::Transfer)
                },
                Event::Failed => self.abort(Failure::RemovePartial),
                _ => Action::Ignore,
            },
            Phase::Advancing => match event {
                Event::Succeeded => self.next_item(),
                Event::Failed => self.halt(),
                _ => Action::Ignore,
            },
            Phase::ReadingLog => match event {
                Event::LogContent(content) => match &self.config.log_path {
                    Some(path) => {
                        let path = path.clone();
                        let downloaded = self.acquired_titles();
                        self.phase = Phase::WritingLog;
                        Action::WriteLog { path, text: rolling_log(&downloaded, &content) }
                    },
                    None => self.halt(),
                },
                Event::Failed => self.abort(Failure::Log),
                _ => Action::Ignore,
            },
            Phase::WritingLog => match event {
                Event::Succeeded => self.finish(),
                Event::Failed => self.abort(Failure::Log),
                _ => Action::Ignore,
            },
            Phase::Finishing => match event {
                Event::Succeeded => {
                    self.phase = Phase::Finished;
                    Action::Report(Outcome::Finished { downloaded: self.done })
                },
                Event::Failed => self.halt(),
                _ => Action::Ignore,
            },
            Phase::Aborting => match event {
                Event::Succeeded => match self.failure {
                    Some(failure) => {
                        let item = self.failed_item();
                        self.phase = Phase::Aborted;
                        Action::Report(Outcome::Aborted { failure, item })
                    },
                    None => self.halt(),
                },
                Event::Failed => self.halt(),
                _ => Action::Ignore,
            },
            Phase::Finished => Action::Ignore,
            Phase::Aborted => Action::Ignore,
            Phase::Skipped => Action::Ignore,
            Phase::Unconfigured => Action::Ignore,
            Phase::Halted => Action::Ignore,
        }
    }
}

} // verus!
