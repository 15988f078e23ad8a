use cyberbard::source::{Source, StreamError};
use cyberbard::threadstream::ThreadStream;
use cyberbard::trackstream::{OpenState, TrackStream};

#[derive(Clone)]
struct TestSource {
    duration_ms: u64,
    ok: bool,
    name: String,
}

impl Source for TestSource {
    fn open(&self) -> Result<u64, StreamError> {
        if self.ok {
            Ok(self.duration_ms)
        } else {
            Err(StreamError::SourceOpenError)
        }
    }

    fn title(&self) -> String {
        self.name.clone()
    }
}

fn src(duration_ms: u64) -> TestSource {
    TestSource { duration_ms, ok: true, name: "t".to_string() }
}

fn bad() -> TestSource {
    TestSource { duration_ms: 0, ok: false, name: "bad".to_string() }
}

fn lane(durations: &[u64]) -> ThreadStream<TestSource> {
    let tracks: Vec<TrackStream<TestSource>> =
        durations.iter().map(|d| TrackStream::new(src(*d), 1000)).collect();
    ThreadStream::new(tracks, 1000).expect("lane")
}

#[test]
fn new_empty_fails() {
    // a lane must hold at least one track
    assert!(ThreadStream::<TestSource>::new(Vec::new(), 1000).is_none());
}

#[test]
fn new_single_track_starts_at_zero() {
    let ts = lane(&[1000]);
    assert_eq!(ts.current, 0);
    assert!(ts.is_stopped);
}

#[test]
fn new_skips_unopenable_first_track() {
    let tracks = vec![TrackStream::new(bad(), 1000), TrackStream::new(src(500), 1000)];
    let ts = ThreadStream::new(tracks, 1000).expect("lane");
    assert_eq!(ts.current, 1);
    assert_eq!(ts.tracks[0].state, OpenState::Failed);
    assert_eq!(ts.tracks[1].state, OpenState::Open);
}

#[test]
fn new_all_failing_tracks_fails() {
    let tracks = vec![TrackStream::new(bad(), 1000), TrackStream::new(bad(), 1000)];
    assert!(ThreadStream::new(tracks, 1000).is_none());
}

#[test]
fn advance_one_position_per_drain() {
    // once playing, a drained track moves `current` forward by exactly
    // one position, wrapping around forever
    let mut ts = lane(&[1000, 1000, 1000]);
    ts.play();
    assert_eq!(ts.current, 0);
    assert!(ts.update(1000).is_ok());
    assert_eq!(ts.current, 1);
    assert!(ts.update(1000).is_ok());
    assert_eq!(ts.current, 2);
    assert!(ts.update(1000).is_ok());
    assert_eq!(ts.current, 0);
    assert!(ts.update(1000).is_ok());
    assert_eq!(ts.current, 1);
}

#[test]
fn no_advance_before_drain() {
    let mut ts = lane(&[1000, 1000]);
    ts.play();
    assert!(ts.update(400).is_ok());
    assert_eq!(ts.current, 0);
    assert!(ts.update(400).is_ok());
    assert_eq!(ts.current, 0);
    assert!(ts.update(400).is_ok());
    assert_eq!(ts.current, 1);
}

#[test]
fn stopped_lane_does_not_advance() {
    let mut ts = lane(&[1000, 1000]);
    assert!(ts.update(5000).is_ok());
    assert_eq!(ts.current, 0);
    assert!(ts.is_stopped);
}

#[test]
fn update_reports_all_tracks_failed() {
    let tracks = vec![TrackStream::new(src(100), 1000), TrackStream::new(bad(), 1000)];
    let mut ts = ThreadStream::new(tracks, 1000).expect("lane");
    ts.play();
    // make the second track the only candidate and let every open fail
    ts.tracks[0].source.ok = false;
    assert_eq!(ts.update(100), Err(StreamError::AllTracksFailed));
}

#[test]
fn position_is_elapsed_over_duration() {
    let mut ts = lane(&[2000]);
    ts.play();
    assert!(ts.update(500).is_ok());
    assert_eq!(ts.get_position(), 250);
}

#[test]
fn position_zero_without_duration() {
    let tracks = vec![TrackStream::new(src(0), 1000)];
    let ts = ThreadStream::new(tracks, 1000).expect("lane");
    assert_eq!(ts.get_position(), 0);
}

#[test]
fn stop_rewinds_to_first_track() {
    let mut ts = lane(&[1000, 1000]);
    ts.play();
    assert!(ts.update(1000).is_ok());
    assert_eq!(ts.current, 1);
    ts.stop();
    assert_eq!(ts.current, 0);
    assert!(ts.is_stopped);
    assert_eq!(ts.get_position(), 0);
}

#[test]
fn partial_volume_mixes_current_track_at_once() {
    let mut ts = lane(&[1000, 1000, 1000]);
    ts.update_volume(800);
    assert_eq!(ts.sink.volume, 800);
    // current track: takes effect immediately
    ts.set_partial_volume(300, 0);
    assert_eq!(ts.tracks[0].volume, 300);
    assert_eq!(ts.sink.volume, 800 * 300 / 1000);
    // another track: stored, not yet audible
    ts.set_partial_volume(500, 2);
    assert_eq!(ts.tracks[2].volume, 500);
    assert_eq!(ts.sink.volume, 800 * 300 / 1000);
}

#[test]
fn partial_volume_clamps_value_and_index() {
    let mut ts = lane(&[1000, 1000]);
    ts.set_partial_volume(5000, 7);
    // index clamped to the last track, volume clamped to unity
    assert_eq!(ts.tracks[1].volume, 1000);
}

#[test]
fn extend_concatenates_playlists() {
    let mut a = lane(&[1, 2]);
    let b = lane(&[3]);
    a.extend(b);
    assert_eq!(a.tracks.len(), 3);
    assert_eq!(a.tracks[2].source.duration_ms, 3);
    assert_eq!(a.current, 0);
}

#[test]
fn replace_preserves_position_and_clamps_current() {
    // old lane: 3 tracks, playing track 1 at 420 ms of 1000
    let mut ts = lane(&[1000, 1000, 1000]);
    ts.play();
    assert!(ts.goto_track(1).is_ok());
    assert_eq!(ts.current, 1);
    assert!(ts.update(420).is_ok());
    assert_eq!(ts.get_position(), 420);

    // new playlist has a single 1000 ms track
    let replacement = vec![TrackStream::new(src(1000), 1000)];
    assert!(ts.replace_sources(replacement).is_ok());
    assert_eq!(ts.current, 0);
    assert_eq!(ts.sink.elapsed_ms, 420);
    assert_eq!(ts.get_position(), 420);
    assert!(!ts.sink.paused);
}

#[test]
fn replace_clamps_position_to_short_track() {
    let mut ts = lane(&[1000]);
    ts.play();
    assert!(ts.update(420).is_ok());
    let replacement = vec![TrackStream::new(src(300), 1000)];
    assert!(ts.replace_sources(replacement).is_ok());
    assert_eq!(ts.sink.elapsed_ms, 300);
}

#[test]
fn goto_track_clamps_index() {
    let mut ts = lane(&[1000, 1000]);
    assert!(ts.goto_track(9).is_ok());
    assert_eq!(ts.current, 1);
}

#[test]
fn track_stream_caches_duration() {
    let mut t = TrackStream::new(src(777), 1000);
    assert_eq!(t.total_duration(), 0);
    let mut sink = cyberbard::sink::Sink::new();
    assert!(t.reset_sink(&mut sink).is_ok());
    assert_eq!(t.total_duration(), 777);
}

#[test]
fn track_stream_open_failure_leaves_sink() {
    let mut t = TrackStream::new(bad(), 1000);
    let mut sink = cyberbard::sink::Sink::new();
    assert_eq!(t.reset_sink(&mut sink), Err(StreamError::SourceOpenError));
    assert!(sink.empty());
    assert_eq!(t.state, OpenState::Failed);
}
