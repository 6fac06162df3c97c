//! The order in which a run works through its videos: oldest first, and
//! videos published at the same instant in the order in which they came.

use crate::catalog::{video_views, Video, VideoView};
use crate::time::Timestamp;
use vstd::prelude::*;

verus! {

/// No video stands before one that was published earlier.
pub open spec fn ascending(videos: Seq<VideoView>) -> bool {
    forall|i: int, j: int|
        0 <= i < j < videos.len() ==> !videos[i].publish_time.is_after(videos[j].publish_time)
}

/// The videos published at `at`.
pub open spec fn published_at(at: Timestamp) -> spec_fn(VideoView) -> bool {
    |video: VideoView| video.publish_time == at
}

/// For every instant, both sequences hold the same videos published at it, in
/// the same order. Two such sequences are rearrangements of each other that
/// keep videos of one instant in place relative to each other.
pub open spec fn same_at_every_instant(first: Seq<VideoView>, second: Seq<VideoView>) -> bool {
    forall|at: Timestamp| #[trigger]
        first.filter(published_at(at)) == second.filter(published_at(at))
}

/// Where a video published at `at` goes in an ascending sequence: behind
/// everything published at or before `at`. This is the number of videos that
/// stand before the first one published after `at`.
pub open spec fn place(sorted: Seq<VideoView>, at: Timestamp) -> nat
    decreases sorted.len(),
{
    if sorted.len() == 0 || sorted[0].publish_time.is_after(at) {
        0
    } else {
        1 + place(sorted.drop_first(), at)
    }
}

/// The videos oldest first: each one in turn is put behind those published at
/// or before it, so videos of one instant stay in the order in which they came.
pub open spec fn arranged(videos: Seq<VideoView>) -> Seq<VideoView>
    decreases videos.len(),
{
    if videos.len() == 0 {
        Seq::empty()
    } else {
        let front = arranged(videos.drop_last());
        front.insert(place(front, videos.last().publish_time) as int, videos.last())
    }
}

/// In an ascending sequence the place splits the videos published at or
/// before `at` from those published after it.
pub proof fn lemma_place_splits(sorted: Seq<VideoView>, at: Timestamp)
    requires
        ascending(sorted),
    ensures
        place(sorted, at) <= sorted.len(),
        forall|i: int| 0 <= i < place(sorted, at) ==> !sorted[i].publish_time.is_after(at),
        forall|i: int|
            place(sorted, at) <= i < sorted.len() ==> sorted[i].publish_time.is_after(at),
    decreases sorted.len(),
{
    if sorted.len() == 0 {
    } else if sorted[0].publish_time.is_after(at) {
        assert forall|i: int| 0 <= i < sorted.len() implies sorted[i].publish_time.is_after(
            at,
        ) by {
            if 0 < i {
                assert(!sorted[0].publish_time.is_after(sorted[i].publish_time));
            }
        }
    } else {
        let rest = sorted.drop_first();
        assert forall|i: int, j: int| 0 <= i < j < rest.len() implies !rest[i].publish_time.is_after(
            rest[j].publish_time,
        ) by {
            assert(rest[i] == sorted[i + 1] && rest[j] == sorted[j + 1]);
        }
        lemma_place_splits(rest, at);
        let p = place(sorted, at);
        assert forall|i: int| 0 <= i < p implies !sorted[i].publish_time.is_after(at) by {
            if 0 < i {
                assert(sorted[i] == rest[i - 1]);
            }
        }
        assert forall|i: int| p <= i < sorted.len() implies sorted[i].publish_time.is_after(
            at,
        ) by {
            assert(sorted[i] == rest[i - 1]);
        }
    }
}

fn place_of(sorted: &Vec<Video>, at: &Timestamp) -> (p: usize)
    requires
        ascending(video_views(sorted@)),
    ensures
        p == place(video_views(sorted@), *at),
        p <= sorted.len(),
{
    let ghost views = video_views(sorted@);
    let mut p: usize = 0;
    proof {
        assert(views.skip(0) =~= views);
    }
    while p < sorted.len() && !sorted[p].publish_time.after(at)
        invariant
            p <= sorted.len(),
            views == video_views(sorted@),
            place(views, *at) == p + place(views.skip(p as int), *at),
        decreases sorted.len() - p,
    {
        proof {
            let rest = views.skip(p as int);
            assert(rest[0] == sorted@[p as int]@);
            assert(rest.drop_first() =~= views.skip(p + 1));
        }
        p += 1;
    }
    proof {
        let rest = views.skip(p as int);
        if p < sorted.len() {
            assert(rest[0] == sorted@[p as int]@);
        }
    }
    p
}

/// Putting `video` at `p` keeps the order, and adds it behind the videos of
/// its own instant while leaving those of every other instant as they were.
proof fn lemma_insert_in_place(sorted: Seq<VideoView>, video: VideoView, p: int)
    requires
        ascending(sorted),
        0 <= p <= sorted.len(),
        forall|i: int| 0 <= i < p ==> !sorted[i].publish_time.is_after(video.publish_time),
        forall|i: int| p <= i < sorted.len() ==> sorted[i].publish_time.is_after(video.publish_time),
    ensures
        ascending(sorted.insert(p, video)),
        forall|at: Timestamp| #[trigger]
            sorted.insert(p, video).filter(published_at(at)) == sorted.push(video).filter(
                published_at(at),
            ),
{
    let grown = sorted.insert(p, video);
    let front = sorted.take(p);
    let back = sorted.skip(p);
    assert(grown =~= front + seq![video] + back);
    assert(sorted =~= front + back);
    assert forall|i: int, j: int| 0 <= i < j < grown.len() implies !grown[i].publish_time.is_after(
        grown[j].publish_time,
    ) by {
        if j < p {
            assert(grown[i] == sorted[i] && grown[j] == sorted[j]);
        } else if j == p {
            assert(grown[i] == sorted[i]);
        } else if i < p {
            assert(grown[i] == sorted[i] && grown[j] == sorted[j - 1]);
        } else if i == p {
            assert(grown[j] == sorted[j - 1]);
        } else {
            assert(grown[i] == sorted[i - 1] && grown[j] == sorted[j - 1]);
        }
    }
    assert forall|at: Timestamp| #[trigger]
        grown.filter(published_at(at)) == sorted.push(video).filter(published_at(at)) by {
        let pred = published_at(at);
        Seq::filter_distributes_over_add(front + seq![video], back, pred);
        Seq::filter_distributes_over_add(front, seq![video], pred);
        Seq::filter_distributes_over_add(front, back, pred);
        sorted.lemma_filter_push(video, pred);
        assert(Seq::<VideoView>::empty().push(video) =~= seq![video]);
        Seq::<VideoView>::empty().lemma_filter_push(video, pred);
        assert(Seq::<VideoView>::empty().filter(pred) =~= Seq::empty()) by {
            Seq::<VideoView>::empty().lemma_filter_len(pred);
        }
        if pred(video) {
            assert forall|x: VideoView| back.contains(x) implies !pred(x) by {
                let k = choose|k: int| 0 <= k < back.len() && back[k] == x;
                assert(back[k] == sorted[p + k]);
            }
            back.lemma_all_neg_filter_empty(pred);
            assert(seq![video].filter(pred) =~= seq![video]);
            assert(grown.filter(pred) =~= front.filter(pred).push(video));
            assert(sorted.filter(pred) =~= front.filter(pred));
        } else {
            assert(seq![video].filter(pred) =~= Seq::empty());
            assert(grown.filter(pred) =~= front.filter(pred) + back.filter(pred));
        }
    }
}

/// The arranged videos are in ascending order, and at every instant they are
/// the given videos of that instant in the given order.
pub proof fn lemma_arranged(videos: Seq<VideoView>)
    ensures
        ascending(arranged(videos)),
        same_at_every_instant(arranged(videos), videos),
        arranged(videos).len() == videos.len(),
    decreases videos.len(),
{
    if videos.len() == 0 {
        assert(arranged(videos) =~= videos);
    } else {
        let given = videos.drop_last();
        let last = videos.last();
        let front = arranged(given);
        lemma_arranged(given);
        lemma_place_splits(front, last.publish_time);
        lemma_insert_in_place(front, last, place(front, last.publish_time) as int);
        assert(given.push(last) =~= videos);
        assert forall|at: Timestamp| #[trigger]
            arranged(videos).filter(published_at(at)) == videos.filter(published_at(at)) by {
            let pred = published_at(at);
            front.lemma_filter_push(last, pred);
            given.lemma_filter_push(last, pred);
            assert(front.filter(pred) == given.filter(pred));
        }
    }
}

/// The arranged videos are the given videos, each as often as it was given.
pub proof fn lemma_arranged_same_videos(videos: Seq<VideoView>)
    ensures
        arranged(videos).to_multiset() == videos.to_multiset(),
        forall|video: VideoView| arranged(videos).contains(video) <==> videos.contains(video),
    decreases videos.len(),
{
    if videos.len() == 0 {
        assert(arranged(videos) =~= videos);
    } else {
        let given = videos.drop_last();
        let last = videos.last();
        let front = arranged(given);
        lemma_arranged_same_videos(given);
        lemma_arranged(given);
        lemma_place_splits(front, last.publish_time);
        vstd::seq_lib::to_multiset_insert(front, place(front, last.publish_time) as int, last);
        assert(given.push(last) =~= videos);
        vstd::seq_lib::to_multiset_build(given, last);
        assert(arranged(videos).to_multiset() =~= videos.to_multiset());
    }
    assert forall|video: VideoView| arranged(videos).contains(video) <==> videos.contains(
        video,
    ) by {
        vstd::seq_lib::to_multiset_contains(arranged(videos), video);
        vstd::seq_lib::to_multiset_contains(videos, video);
    }
}

/// Where the last video of a sequence passes a test, it is the last of those
/// that pass.
proof fn lemma_last_of_filter(videos: Seq<VideoView>, pred: spec_fn(VideoView) -> bool)
    requires
        videos.len() > 0,
        pred(videos.last()),
    ensures
        videos.filter(pred) == videos.drop_last().filter(pred).push(videos.last()),
{
    assert(videos.drop_last().push(videos.last()) =~= videos);
    videos.drop_last().lemma_filter_push(videos.last(), pred);
}

/// Where the last video of a sequence fails a test, it is not among those
/// that pass.
proof fn lemma_last_not_in_filter(videos: Seq<VideoView>, pred: spec_fn(VideoView) -> bool)
    requires
        videos.len() > 0,
        !pred(videos.last()),
    ensures
        videos.filter(pred) == videos.drop_last().filter(pred),
{
    assert(videos.drop_last().push(videos.last()) =~= videos);
    videos.drop_last().lemma_filter_push(videos.last(), pred);
}

/// A video of one sequence stands in the other as well.
proof fn lemma_shared_video(first: Seq<VideoView>, second: Seq<VideoView>, i: int)
    requires
        same_at_every_instant(first, second),
        0 <= i < first.len(),
    ensures
        second.contains(first[i]),
{
    let pred = published_at(first[i].publish_time);
    first.lemma_filter_contains(pred, i);
    assert(first.filter(pred) == second.filter(pred));
    second.lemma_filter_contains_rev(pred, first[i]);
}

/// Two ascending sequences that hold the same videos at every instant, in
/// the same order, are one and the same sequence.
pub proof fn lemma_one_ascending_order(first: Seq<VideoView>, second: Seq<VideoView>)
    requires
        ascending(first),
        ascending(second),
        same_at_every_instant(first, second),
    ensures
        first == second,
    decreases first.len(),
{
    if first.len() == 0 {
        if second.len() > 0 {
            assert forall|at: Timestamp| #[trigger]
                second.filter(published_at(at)) == first.filter(published_at(at)) by {
                assert(first.filter(published_at(at)) == second.filter(published_at(at)));
            }
            lemma_shared_video(second, first, 0);
        }
        assert(first =~= second);
    } else {
        let x = first.last();
        lemma_shared_video(first, second, first.len() - 1);
        let m = choose|m: int| 0 <= m < second.len() && second[m] == x;
        let y = second.last();
        assert forall|at: Timestamp| #[trigger]
            second.filter(published_at(at)) == first.filter(published_at(at)) by {
            assert(first.filter(published_at(at)) == second.filter(published_at(at)));
        }
        lemma_shared_video(second, first, second.len() - 1);
        let k = choose|k: int| 0 <= k < first.len() && first[k] == y;
        if k < first.len() - 1 {
            assert(!first[k].publish_time.is_after(first[first.len() - 1].publish_time));
        }
        if m < second.len() - 1 {
            assert(!second[m].publish_time.is_after(second[second.len() - 1].publish_time));
        }
        assert(x.publish_time == y.publish_time);
        let here = published_at(x.publish_time);
        lemma_last_of_filter(first, here);
        lemma_last_of_filter(second, here);
        assert(first.filter(here) == second.filter(here));
        assert(first.filter(here).last() == x);
        assert(second.filter(here).last() == y);
        assert(x == y);
        let a = first.drop_last();
        let b = second.drop_last();
        assert forall|at: Timestamp| #[trigger]
            a.filter(published_at(at)) == b.filter(published_at(at)) by {
            let pred = published_at(at);
            assert(first.filter(pred) == second.filter(pred));
            if pred(x) {
                lemma_last_of_filter(first, pred);
                lemma_last_of_filter(second, pred);
                assert(a.filter(pred) =~= a.filter(pred).push(x).drop_last());
                assert(b.filter(pred) =~= b.filter(pred).push(x).drop_last());
            } else {
                lemma_last_not_in_filter(first, pred);
                lemma_last_not_in_filter(second, pred);
            }
        }
        assert forall|i: int, j: int| 0 <= i < j < a.len() implies !a[i].publish_time.is_after(
            a[j].publish_time,
        ) by {
            assert(a[i] == first[i] && a[j] == first[j]);
        }
        assert forall|i: int, j: int| 0 <= i < j < b.len() implies !b[i].publish_time.is_after(
            b[j].publish_time,
        ) by {
            assert(b[i] == second[i] && b[j] == second[j]);
        }
        lemma_one_ascending_order(a, b);
        assert(first =~= a.push(x));
        assert(second =~= b.push(y));
    }
}

/// The arranged videos are the only ascending sequence that holds the given
/// videos of every instant in the given order.
pub proof fn lemma_arranged_is_the_only_order(videos: Seq<VideoView>, other: Seq<VideoView>)
    requires
        ascending(other),
        same_at_every_instant(other, videos),
    ensures
        other == arranged(videos),
{
    lemma_arranged(videos);
    assert forall|at: Timestamp| #[trigger]
        other.filter(published_at(at)) == arranged(videos).filter(published_at(at)) by {
        assert(other.filter(published_at(at)) == videos.filter(published_at(at)));
        assert(arranged(videos).filter(published_at(at)) == videos.filter(published_at(at)));
    }
    lemma_one_ascending_order(other, arranged(videos));
}

/// Arranges videos by publish time, oldest first, without changing the
/// relative order of videos published at the same instant.
pub fn oldest_first(videos: Vec<Video>) -> (r: Vec<Video>)
    ensures
        video_views(r@) == arranged(video_views(videos@)),
        ascending(video_views(r@)),
        same_at_every_instant(video_views(r@), video_views(videos@)),
{
    let ghost all = video_views(videos@);
    let mut out: Vec<Video> = Vec::new();
    assert(all.take(0) =~= Seq::empty());
    assert(video_views(out@) =~= Seq::empty());
    for video in it: videos
        invariant
            it.seq() == videos@,
            all == video_views(videos@),
            video_views(out@) == arranged(all.take(it.index() as int)),
    {
        let ghost i = it.index() as int;
        let ghost before = video_views(out@);
        proof {
            lemma_arranged(all.take(i));
            assert(all.take(i + 1).drop_last() =~= all.take(i));
            assert(all.take(i + 1).last() == video@);
        }
        let p = place_of(&out, &video.publish_time);
        out.insert(p, video);
        assert(video_views(out@) =~= before.insert(p as int, video@));
    }
    assert(all.take(all.len() as int) =~= all);
    proof {
        lemma_arranged(all);
    }
    out
}

} // verus!
