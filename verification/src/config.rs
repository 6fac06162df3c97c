//! The persisted record of a deployment: where downloads go, how far the
//! library is synchronised, and whether a run holds the advisory lock.

use crate::text::{copy_all, copy_opt, opt_text, texts};
use crate::time::Timestamp;
use vstd::prelude::*;

verus! {

/// The quality tier whose URL a download uses.
#[derive(Clone, Copy, Debug, PartialEq, Eq, Structural)]
pub enum Resolution {
    HD,
    High,
    Low,
}

/// The persisted state of one deployment.
#[derive(Debug)]
pub struct Config {
    /// Directory that downloads are written to.
    pub library_path: String,
    /// Entries published at or before this instant count as synchronised.
    pub checkpoint_time: Timestamp,
    /// Credential for the catalogue, opaque to this library.
    pub api_key: String,
    /// An entry whose name contains one of these is skipped.
    pub exclude_patterns: Vec<String>,
    /// True while a run is in progress.
    pub locked: bool,
    pub resolution: Resolution,
    /// File that the titles of new downloads are logged to, if any.
    pub log_path: Option<String>,
}

/// A `Config` as mathematical values.
pub struct ConfigView {
    pub library_path: Seq<char>,
    pub checkpoint_time: Timestamp,
    pub api_key: Seq<char>,
    pub exclude_patterns: Seq<Seq<char>>,
    pub locked: bool,
    pub resolution: Resolution,
    pub log_path: Option<Seq<char>>,
}

impl View for Config {
    type V = ConfigView;

    open spec fn view(&self) -> ConfigView {
        ConfigView {
            library_path: self.library_path@,
            checkpoint_time: self.checkpoint_time,
            api_key: self.api_key@,
            exclude_patterns: texts(self.exclude_patterns@),
            locked: self.locked,
            resolution: self.resolution,
            log_path: opt_text(self.log_path),
        }
    }
}

impl ConfigView {
    /// The record written on first use: nothing filled in, the lock free, and
    /// the checkpoint at the moment of writing.
    pub open spec fn placeholder(now: Timestamp) -> ConfigView {
        ConfigView {
            library_path: Seq::empty(),
            checkpoint_time: now,
            api_key: Seq::empty(),
            exclude_patterns: Seq::empty(),
            locked: false,
            resolution: Resolution::HD,
            log_path: None,
        }
    }
}

impl Config {
    /// The record to persist where none exists yet; an operator fills it in.
    pub fn placeholder(now: Timestamp) -> (r: Config)
        ensures
            r@ == ConfigView::placeholder(now),
    {
        let r = Config {
            library_path: String::new(),
            checkpoint_time: now,
            api_key: String::new(),
            exclude_patterns: Vec::new(),
            locked: false,
            resolution: Resolution::HD,
            log_path: None,
        };
        assert(texts(r.exclude_patterns@) =~= Seq::empty());
        r
    }

    /// A copy with the same contents.
    pub fn duplicate(&self) -> (r: Config)
        ensures
            r@ == self@,
    {
        Config {
            library_path: self.library_path.clone(),
            checkpoint_time: self.checkpoint_time,
            api_key: self.api_key.clone(),
            exclude_patterns: copy_all(&self.exclude_patterns),
            locked: self.locked,
            resolution: self.resolution,
            log_path: copy_opt(&self.log_path),
        }
    }
}

} // verus!
