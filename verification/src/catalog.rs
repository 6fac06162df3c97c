//! Entries of the remote catalogue: the record as the source reports it, the
//! video it stands for once its publish time is resolved, and the query that
//! asks for the latest entries.

use crate::text::opt_text;
use crate::time::{publish_instant, resolve_publish_time, TimeError, Timestamp};
use vstd::prelude::*;
use vstd::string::StringExecFns;

verus! {

/// One entry as the catalogue reports it.
#[derive(Debug)]
pub struct VideoRecord {
    pub id: String,
    pub name: String,
    /// Publish time as `YYYY-MM-DD HH:MM:SS` on a U.S. Pacific wall clock.
    pub publish_date: String,
    pub hd_url: Option<String>,
    pub high_url: Option<String>,
    pub low_url: Option<String>,
    pub show_title: Option<String>,
}

/// A catalogue entry whose publish time denotes one UTC instant.
#[derive(Debug)]
pub struct Video {
    pub id: String,
    /// Display title; may hold characters that a file name cannot.
    pub name: String,
    /// Publish time as the catalogue wrote it.
    pub publish_date: String,
    /// Publish time in UTC.
    pub publish_time: Timestamp,
    pub hd_url: Option<String>,
    pub high_url: Option<String>,
    pub low_url: Option<String>,
    pub show_title: Option<String>,
}

pub struct RecordView {
    pub id: Seq<char>,
    pub name: Seq<char>,
    pub publish_date: Seq<char>,
    pub hd_url: Option<Seq<char>>,
    pub high_url: Option<Seq<char>>,
    pub low_url: Option<Seq<char>>,
    pub show_title: Option<Seq<char>>,
}

pub struct VideoView {
    pub id: Seq<char>,
    pub name: Seq<char>,
    pub publish_date: Seq<char>,
    pub publish_time: Timestamp,
    pub hd_url: Option<Seq<char>>,
    pub high_url: Option<Seq<char>>,
    pub low_url: Option<Seq<char>>,
    pub show_title: Option<Seq<char>>,
}

impl View for VideoRecord {
    type V = RecordView;

    open spec fn view(&self) -> RecordView {
        RecordView {
            id: self.id@,
            name: self.name@,
            publish_date: self.publish_date@,
            hd_url: opt_text(self.hd_url),
            high_url: opt_text(self.high_url),
            low_url: opt_text(self.low_url),
            show_title: opt_text(self.show_title),
        }
    }
}

impl View for Video {
    type V = VideoView;

    open spec fn view(&self) -> VideoView {
        VideoView {
            id: self.id@,
            name: self.name@,
            publish_date: self.publish_date@,
            publish_time: self.publish_time,
            hd_url: opt_text(self.hd_url),
            high_url: opt_text(self.high_url),
            low_url: opt_text(self.low_url),
            show_title: opt_text(self.show_title),
        }
    }
}

/// The views of a sequence of records.
pub open spec fn record_views(records: Seq<VideoRecord>) -> Seq<RecordView> {
    records.map_values(|r: VideoRecord| r@)
}

/// The views of a sequence of videos.
pub open spec fn video_views(videos: Seq<Video>) -> Seq<VideoView> {
    videos.map_values(|v: Video| v@)
}

impl RecordView {
    /// The record with its publish time set to `at`.
    pub open spec fn published_at(self, at: Timestamp) -> VideoView {
        VideoView {
            id: self.id,
            name: self.name,
            publish_date: self.publish_date,
            publish_time: at,
            hd_url: self.hd_url,
            high_url: self.high_url,
            low_url: self.low_url,
            show_title: self.show_title,
        }
    }

    /// The video that the record stands for, or why its publish time denotes
    /// no single instant.
    pub open spec fn resolved(self) -> Result<VideoView, TimeError> {
        match publish_instant(self.publish_date) {
            Ok(at) => Ok(self.published_at(at)),
            Err(e) => Err(e),
        }
    }
}

/// The videos that a catalogue stands for, in its order. One record that does
/// not resolve fails the whole catalogue with the error of the first such
/// record.
pub open spec fn resolved_catalog(records: Seq<RecordView>) -> Result<Seq<VideoView>, TimeError>
    decreases records.len(),
{
    if records.len() == 0 {
        Ok(Seq::empty())
    } else {
        match resolved_catalog(records.drop_last()) {
            Err(e) => Err(e),
            Ok(videos) => match records.last().resolved() {
                Err(e) => Err(e),
                Ok(video) => Ok(videos.push(video)),
            },
        }
    }
}

/// Resolves the publish time of one record.
pub fn resolve_record(record: VideoRecord) -> (r: Result<Video, TimeError>)
    ensures
        match r {
            Ok(video) => record@.resolved() == Ok::<VideoView, TimeError>(video@),
            Err(e) => record@.resolved() == Err::<VideoView, TimeError>(e),
        },
{
    match resolve_publish_time(record.publish_date.as_str()) {
        Err(e) => Err(e),
        Ok(at) => Ok(
            Video {
                id: record.id,
                name: record.name,
                publish_date: record.publish_date,
                publish_time: at,
                hd_url: record.hd_url,
                high_url: record.high_url,
                low_url: record.low_url,
                show_title: record.show_title,
            },
        ),
    }
}

/// Resolves a whole catalogue, keeping its order; partial catalogues are not
/// handed out.
pub fn resolve_catalog(records: Vec<VideoRecord>) -> (r: Result<Vec<Video>, TimeError>)
    ensures
        match r {
            Ok(videos) => resolved_catalog(record_views(records@)) == Ok::<
                Seq<VideoView>,
                TimeError,
            >(video_views(videos@)),
            Err(e) => resolved_catalog(record_views(records@)) == Err::<Seq<VideoView>, TimeError>(
                e,
            ),
        },
{
    let ghost all = record_views(records@);
    let mut out: Vec<Video> = Vec::new();
    assert(all.take(0) =~= Seq::empty());
    assert(video_views(out@) =~= Seq::empty());
    for record in it: records
        invariant
            it.seq() == records@,
            all == record_views(records@),
            resolved_catalog(all.take(it.index() as int)) == Ok::<Seq<VideoView>, TimeError>(
                video_views(out@),
            ),
    {
        let ghost i = it.index() as int;
        let ghost before = video_views(out@);
        proof {
            assert(all.take(i + 1).drop_last() =~= all.take(i));
            assert(all.take(i + 1).last() == record@);
        }
        match resolve_record(record) {
            Err(e) => {
                proof {
                    lemma_failure_persists(all, i + 1);
                }
                return Err(e);
            },
            Ok(video) => {
                out.push(video);
                assert(video_views(out@) =~= before.push(video@));
            },
        }
    }
    assert(all.take(all.len() as int) =~= all);
    Ok(out)
}

/// A catalogue with a failing prefix fails with the same error.
pub proof fn lemma_failure_persists(records: Seq<RecordView>, n: int)
    requires
        0 <= n <= records.len(),
        resolved_catalog(records.take(n)) is Err,
    ensures
        resolved_catalog(records) == resolved_catalog(records.take(n)),
    decreases records.len() - n,
{
    if n == records.len() {
        assert(records.take(n) =~= records);
    } else {
        assert(records.take(n + 1).drop_last() =~= records.take(n));
        lemma_failure_persists(records, n + 1);
    }
}

/// The address that lists the `limit` latest entries of the catalogue.
pub open spec fn catalog_query(api_key: Seq<char>, limit: Seq<char>) -> Seq<char> {
    "https://www.giantbomb.com/api/videos/?format=json&limit="@ + limit + "&api_key="@ + api_key
}

/// The address of the one request that a run makes for the ten latest entries.
pub fn latest_videos_query(api_key: &str) -> (r: String)
    ensures
        r@ == catalog_query(api_key@, "10"@),
{
    let mut url = String::from_str("https://www.giantbomb.com/api/videos/?format=json&limit=");
    url.append("10");
    url.append("&api_key=");
    url.append(api_key);
    url
}

} // verus!
