use cyberbard::source::{Source, StreamError};
use cyberbard::stream::Stream;
use cyberbard::threadstream::ThreadStream;
use cyberbard::trackstream::TrackStream;

#[derive(Clone)]
struct TestSource {
    duration_ms: u64,
    ok: bool,
    name: String,
}

impl Source for TestSource {
    fn open(&self) -> Result<u64, StreamError> {
        if self.ok {
            Ok(self.duration_ms)
        } else {
            Err(StreamError::SourceOpenError)
        }
    }

    fn title(&self) -> String {
        self.name.clone()
    }
}

fn src(duration_ms: u64) -> TestSource {
    TestSource { duration_ms, ok: true, name: "t".to_string() }
}

fn lane(durations: &[u64]) -> ThreadStream<TestSource> {
    let tracks: Vec<TrackStream<TestSource>> =
        durations.iter().map(|d| TrackStream::new(src(*d), 1000)).collect();
    ThreadStream::new(tracks, 1000).expect("lane")
}

fn stream(lanes: &[&[u64]]) -> Stream<TestSource> {
    Stream::new(lanes.iter().map(|d| lane(d)).collect(), 1000)
}

fn track_counts(s: &Stream<TestSource>) -> Vec<usize> {
    s.playlists.iter().map(|pl| pl.tracks.len()).collect()
}

#[test]
fn merge_takes_lane_maximum() {
    // lane count = max of both; overlapping lanes concatenate in
    // self-then-other order
    let mut a = stream(&[&[1, 2], &[3]]);
    let b = stream(&[&[4], &[5, 6], &[7]]);
    a.merge(b);
    assert_eq!(a.playlists.len(), 3);
    assert_eq!(track_counts(&a), vec![3, 3, 1]);
    assert_eq!(a.playlists[0].tracks[0].source.duration_ms, 1);
    assert_eq!(a.playlists[0].tracks[1].source.duration_ms, 2);
    assert_eq!(a.playlists[0].tracks[2].source.duration_ms, 4);
}

#[test]
fn merge_into_longer_stream_leaves_tail() {
    let mut a = stream(&[&[1], &[2], &[3]]);
    let b = stream(&[&[4]]);
    a.merge(b);
    assert_eq!(a.playlists.len(), 3);
    assert_eq!(track_counts(&a), vec![2, 1, 1]);
}

#[test]
fn merge_parallel_appends_all_lanes() {
    // lane count = sum of both; no existing lane's playlist changes
    let mut a = stream(&[&[1, 2]]);
    let b = stream(&[&[3], &[4]]);
    a.merge_parallel(b);
    assert_eq!(a.playlists.len(), 3);
    assert_eq!(track_counts(&a), vec![2, 1, 1]);
    assert_eq!(a.playlists[0].tracks[1].source.duration_ms, 2);
    assert_eq!(a.playlists[1].tracks[0].source.duration_ms, 3);
}

#[test]
fn from_source_wraps_one_track() {
    let s = Stream::from_source(src(100), 700);
    assert_eq!(s.playlists.len(), 1);
    assert_eq!(s.playlists[0].tracks.len(), 1);
    assert_eq!(s.playlists[0].tracks[0].volume, 700);
    assert_eq!(s.total_volume, 0);
    assert!(!s.is_empty());
}

#[test]
fn from_failing_source_is_silent() {
    let s = Stream::from_source(
        TestSource { duration_ms: 0, ok: false, name: "x".to_string() },
        700,
    );
    assert!(s.is_empty());
    assert_eq!(s.get_position(), 0);
}

#[test]
fn total_volume_broadcasts_to_lanes() {
    let mut s = stream(&[&[1], &[2]]);
    s.set_total_volume(500);
    assert_eq!(s.total_volume, 500);
    for pl in s.playlists.iter() {
        assert_eq!(pl.volume, 500);
        assert_eq!(pl.sink.volume, 500);
    }
    // out-of-range master volume is clamped
    s.set_total_volume(9999);
    assert_eq!(s.total_volume, 1000);
}

#[test]
fn partial_volume_targets_one_track() {
    // a lane playing track 0: volume of (lane 1, track 0) mixes at once,
    // volume of a non-current track only changes the stored value
    let mut s = stream(&[&[1], &[2, 3, 4]]);
    s.set_total_volume(1000);
    s.set_partial_volume(300, 1, 0);
    assert_eq!(s.playlists[1].tracks[0].volume, 300);
    assert_eq!(s.playlists[1].sink.volume, 300);
    s.set_partial_volume(200, 1, 2);
    assert_eq!(s.playlists[1].tracks[2].volume, 200);
    assert_eq!(s.playlists[1].sink.volume, 300);
}

#[test]
fn sync_replaces_lanes_in_place() {
    // old lane 0: 3 tracks, playing track 1 at 420 ms; the new stream's
    // lane 0 has a single track: post-sync current == 0, position kept
    let mut live = stream(&[&[1000, 1000, 1000]]);
    live.play();
    let mut p = live;
    {
        let pl = &mut p.playlists[0];
        pl.goto_track(1).unwrap();
    }
    assert!(p.update(420).is_ok());
    assert_eq!(p.playlists[0].current, 1);

    let fresh = stream(&[&[1000]]);
    p.sync(fresh);
    assert_eq!(p.playlists.len(), 1);
    assert_eq!(p.playlists[0].current, 0);
    assert_eq!(p.playlists[0].sink.elapsed_ms, 420);
    assert!(!p.playlists[0].sink.paused);
}

#[test]
fn sync_appends_new_lanes_and_keeps_old_extras() {
    let mut live = stream(&[&[1], &[2]]);
    let mut fresh = stream(&[&[3], &[4], &[5]]);
    fresh.set_total_volume(600);
    live.sync(fresh);
    assert_eq!(live.playlists.len(), 3);
    assert_eq!(live.total_volume, 600);
    assert_eq!(live.playlists[2].volume, 600);

    // a new stream with fewer lanes leaves the extra old lanes untouched
    let mut live2 = stream(&[&[1], &[2]]);
    let fresh2 = stream(&[&[9]]);
    live2.sync(fresh2);
    assert_eq!(live2.playlists.len(), 2);
    assert_eq!(live2.playlists[1].tracks[0].source.duration_ms, 2);
}

#[test]
fn play_pause_stop_broadcast() {
    let mut s = stream(&[&[1000], &[1000]]);
    s.play();
    assert!(!s.playlists[0].is_stopped);
    assert!(!s.playlists[1].sink.paused);
    s.pause();
    assert!(s.playlists[0].sink.paused);
    s.stop();
    assert!(s.playlists[0].is_stopped);
    assert_eq!(s.playlists[1].current, 0);
    assert_eq!(s.get_position(), 0);
}

#[test]
fn update_advances_each_lane_independently() {
    let mut s = stream(&[&[1000, 1000], &[500, 500]]);
    s.play();
    assert!(s.update(500).is_ok());
    assert_eq!(s.playlists[0].current, 0);
    assert_eq!(s.playlists[1].current, 1);
}
