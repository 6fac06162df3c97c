//! Which catalogue entries a run downloads: those published after the
//! checkpoint whose name holds none of the excluded substrings.

use crate::catalog::{video_views, Video, VideoView};
use crate::config::Config;
use crate::text::{chars_of, is_infix, occurs, texts};
use crate::time::Timestamp;
use vstd::multiset::Multiset;
use vstd::prelude::*;

verus! {

/// Some pattern is a contiguous part of `name`, case and all.
pub open spec fn excluded(name: Seq<char>, patterns: Seq<Seq<char>>) -> bool {
    exists|i: int| 0 <= i < patterns.len() && is_infix(#[trigger] patterns[i], name)
}

/// The video is published after the checkpoint and its name is not excluded.
pub open spec fn wanted(video: VideoView, checkpoint: Timestamp, patterns: Seq<Seq<char>>) -> bool {
    video.publish_time.is_after(checkpoint) && !excluded(video.name, patterns)
}

/// `wanted` as a predicate on videos.
pub open spec fn wanted_by(checkpoint: Timestamp, patterns: Seq<Seq<char>>) -> spec_fn(
    VideoView,
) -> bool {
    |video: VideoView| wanted(video, checkpoint, patterns)
}

/// The wanted videos, in the order in which they were given.
pub open spec fn selection(
    videos: Seq<VideoView>,
    checkpoint: Timestamp,
    patterns: Seq<Seq<char>>,
) -> Seq<VideoView> {
    videos.filter(wanted_by(checkpoint, patterns))
}

/// Whether a name holds one of the excluded substrings.
pub fn is_excluded(name: &str, patterns: &Vec<String>) -> (r: bool)
    ensures
        r == excluded(name@, texts(patterns@)),
{
    let hay = chars_of(name);
    let mut i: usize = 0;
    while i < patterns.len()
        invariant
            i <= patterns.len(),
            hay@ == name@,
            forall|j: int| 0 <= j < i ==> !is_infix(#[trigger] texts(patterns@)[j], name@),
        decreases patterns.len() - i,
    {
        let needle = chars_of(patterns[i].as_str());
        assert(texts(patterns@)[i as int] == needle@);
        if occurs(&hay, &needle) {
            return true;
        }
        i += 1;
    }
    false
}

/// Narrows a catalogue to the videos that the run downloads, keeping their order.
pub fn select(videos: Vec<Video>, config: &Config) -> (r: Vec<Video>)
    ensures
        video_views(r@) == selection(
            video_views(videos@),
            config@.checkpoint_time,
            config@.exclude_patterns,
        ),
{
    let ghost all = video_views(videos@);
    let ghost pred = wanted_by(config@.checkpoint_time, config@.exclude_patterns);
    let mut out: Vec<Video> = Vec::new();
    assert(all.take(0) =~= Seq::empty());
    assert(video_views(out@) =~= Seq::empty());
    for video in it: videos
        invariant
            it.seq() == videos@,
            all == video_views(videos@),
            pred == wanted_by(config@.checkpoint_time, config@.exclude_patterns),
            video_views(out@) == all.take(it.index() as int).filter(pred),
    {
        let ghost i = it.index() as int;
        let ghost before = video_views(out@);
        proof {
            assert(all.take(i + 1) =~= all.take(i).push(video@));
            all.take(i).lemma_filter_push(video@, pred);
        }
        if video.publish_time.after(&config.checkpoint_time) && !is_excluded(
            video.name.as_str(),
            &config.exclude_patterns,
        ) {
            out.push(video);
            assert(video_views(out@) =~= before.push(video@));
        }
    }
    assert(all.take(all.len() as int) =~= all);
    out
}

/// The selection holds exactly the given videos that are wanted.
pub proof fn lemma_selection_exact(
    videos: Seq<VideoView>,
    checkpoint: Timestamp,
    patterns: Seq<Seq<char>>,
    video: VideoView,
)
    ensures
        selection(videos, checkpoint, patterns).contains(video) <==> videos.contains(video)
            && wanted(video, checkpoint, patterns),
{
    let pred = wanted_by(checkpoint, patterns);
    let chosen = selection(videos, checkpoint, patterns);
    if chosen.contains(video) {
        let i = choose|i: int| 0 <= i < chosen.len() && chosen[i] == video;
        videos.lemma_filter_pred(pred, i);
        videos.lemma_filter_contains_rev(pred, video);
    }
    if videos.contains(video) && wanted(video, checkpoint, patterns) {
        let j = choose|j: int| 0 <= j < videos.len() && videos[j] == video;
        videos.lemma_filter_contains(pred, j);
    }
}

/// How often a video stands in the selection: as often as it was given where
/// it is wanted, and not at all where it is not.
pub proof fn lemma_selection_count(
    videos: Seq<VideoView>,
    checkpoint: Timestamp,
    patterns: Seq<Seq<char>>,
    video: VideoView,
)
    ensures
        selection(videos, checkpoint, patterns).to_multiset().count(video) == if wanted(
            video,
            checkpoint,
            patterns,
        ) {
            videos.to_multiset().count(video)
        } else {
            0
        },
    decreases videos.len(),
{
    broadcast use vstd::multiset::group_multiset_axioms;

    let pred = wanted_by(checkpoint, patterns);
    let chosen = selection(videos, checkpoint, patterns);
    if videos.len() == 0 {
        assert(chosen =~= Seq::empty());
        assert(videos =~= Seq::empty());
        assert(Seq::<VideoView>::empty().to_multiset() =~= Multiset::empty()) by {
            Seq::<VideoView>::empty().to_multiset_ensures();
        }
    } else {
        let front = videos.drop_last();
        let last = videos.last();
        lemma_selection_count(front, checkpoint, patterns, video);
        assert(front.push(last) =~= videos);
        front.lemma_filter_push(last, pred);
        vstd::seq_lib::to_multiset_build(front, last);
        if pred(last) {
            vstd::seq_lib::to_multiset_build(front.filter(pred), last);
        }
    }
}

/// The selection does not depend on the order of the catalogue: two
/// catalogues with the same entries give selections with the same entries.
pub proof fn lemma_selection_ignores_order(
    first: Seq<VideoView>,
    second: Seq<VideoView>,
    checkpoint: Timestamp,
    patterns: Seq<Seq<char>>,
)
    requires
        first.to_multiset() == second.to_multiset(),
    ensures
        selection(first, checkpoint, patterns).to_multiset() == selection(
            second,
            checkpoint,
            patterns,
        ).to_multiset(),
{
    let a = selection(first, checkpoint, patterns).to_multiset();
    let b = selection(second, checkpoint, patterns).to_multiset();
    assert forall|video: VideoView| a.count(video) == b.count(video) by {
        lemma_selection_count(first, checkpoint, patterns, video);
        lemma_selection_count(second, checkpoint, patterns, video);
    }
    assert(a =~= b);
}

/// Selecting from a selection with the same checkpoint and patterns changes nothing.
pub proof fn lemma_selection_is_stable(
    videos: Seq<VideoView>,
    checkpoint: Timestamp,
    patterns: Seq<Seq<char>>,
)
    ensures
        selection(selection(videos, checkpoint, patterns), checkpoint, patterns) == selection(
            videos,
            checkpoint,
            patterns,
        ),
    decreases videos.len(),
{
    let pred = wanted_by(checkpoint, patterns);
    if videos.len() == 0 {
        assert(selection(videos, checkpoint, patterns) =~= Seq::empty());
    } else {
        let front = videos.drop_last();
        let last = videos.last();
        lemma_selection_is_stable(front, checkpoint, patterns);
        assert(front.push(last) =~= videos);
        front.lemma_filter_push(last, pred);
        if pred(last) {
            front.filter(pred).lemma_filter_push(last, pred);
        }
    }
}

/// Where nothing is selected, selecting from the selection gives nothing.
pub proof fn lemma_empty_selection_stays_empty(
    videos: Seq<VideoView>,
    checkpoint: Timestamp,
    patterns: Seq<Seq<char>>,
)
    requires
        selection(videos, checkpoint, patterns).len() == 0,
    ensures
        selection(selection(videos, checkpoint, patterns), checkpoint, patterns) == Seq::<
            VideoView,
        >::empty(),
{
    lemma_selection_is_stable(videos, checkpoint, patterns);
    assert(selection(videos, checkpoint, patterns) =~= Seq::empty());
}

/// Once the checkpoint has reached the publish time of every given video,
/// none of them is selected again.
pub proof fn lemma_nothing_selected_twice(
    videos: Seq<VideoView>,
    checkpoint: Timestamp,
    patterns: Seq<Seq<char>>,
)
    requires
        forall|i: int| 0 <= i < videos.len() ==> checkpoint.is_at_or_after(videos[i].publish_time),
    ensures
        selection(videos, checkpoint, patterns) == Seq::<VideoView>::empty(),
{
    let pred = wanted_by(checkpoint, patterns);
    assert forall|video: VideoView| videos.contains(video) implies !pred(video) by {
        let i = choose|i: int| 0 <= i < videos.len() && videos[i] == video;
        assert(checkpoint.is_at_or_after(videos[i].publish_time));
    }
    videos.lemma_all_neg_filter_empty(pred);
}

} // verus!
