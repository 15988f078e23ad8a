use cyberbard::player::{Command, Player};
use cyberbard::source::{Source, StreamError};
use cyberbard::stream::Stream;
use cyberbard::threadstream::ThreadStream;
use cyberbard::trackstream::TrackStream;

#[derive(Clone)]
struct TestSource {
    duration_ms: u64,
    ok: bool,
}

impl Source for TestSource {
    fn open(&self) -> Result<u64, StreamError> {
        if self.ok {
            Ok(self.duration_ms)
        } else {
            Err(StreamError::SourceOpenError)
        }
    }

    fn title(&self) -> String {
        "t".to_string()
    }
}

fn lane(durations: &[u64]) -> ThreadStream<TestSource> {
    let tracks: Vec<TrackStream<TestSource>> = durations
        .iter()
        .map(|d| TrackStream::new(TestSource { duration_ms: *d, ok: true }, 1000))
        .collect();
    ThreadStream::new(tracks, 1000).expect("lane")
}

fn stream(lanes: &[&[u64]]) -> Stream<TestSource> {
    Stream::new(lanes.iter().map(|d| lane(d)).collect(), 1000)
}

#[test]
fn fresh_player_is_empty() {
    let p: Player<TestSource> = Player::new();
    assert!(p.is_paused());
    assert_eq!(p.get_position(), 0);
    assert!(p.currently_playing().is_empty());
}

#[test]
fn set_stream_play_and_tick_publishes() {
    let mut p: Player<TestSource> = Player::new();
    p.handle_command(Command::SetStream(stream(&[&[1000, 1000], &[500]])));
    p.handle_command(Command::Play);
    assert!(!p.is_paused());
    assert!(p.tick(250).is_ok());
    assert_eq!(p.get_position(), 250);
    assert_eq!(p.currently_playing(), vec![0, 0]);
    // the first lane drains its first track after one second
    assert!(p.tick(750).is_ok());
    assert_eq!(p.currently_playing(), vec![1, 0]);
}

#[test]
fn reset_clears_everything() {
    // after Reset the position is zero and nothing is playing
    let mut p: Player<TestSource> = Player::new();
    p.handle_command(Command::SetStream(stream(&[&[1000]])));
    p.handle_command(Command::Play);
    assert!(p.tick(400).is_ok());
    assert_eq!(p.get_position(), 400);
    p.handle_command(Command::Reset);
    assert_eq!(p.get_position(), 0);
    assert!(p.currently_playing().is_empty());
    assert!(p.is_paused());
}

#[test]
fn commands_without_stream_are_ignored() {
    let mut p: Player<TestSource> = Player::new();
    p.handle_command(Command::Play);
    p.handle_command(Command::Stop);
    p.handle_command(Command::SetVolume(300));
    assert!(p.tick(100).is_ok());
    assert_eq!(p.get_position(), 0);
    assert!(p.currently_playing().is_empty());
}

#[test]
fn sync_without_stream_adopts() {
    let mut p: Player<TestSource> = Player::new();
    p.handle_command(Command::SyncStream(stream(&[&[1000]])));
    assert!(p.tick(0).is_ok());
    assert_eq!(p.currently_playing(), vec![0]);
}

#[test]
fn pause_and_stop() {
    let mut p: Player<TestSource> = Player::new();
    p.handle_command(Command::SetStream(stream(&[&[1000]])));
    p.handle_command(Command::Play);
    assert!(p.tick(300).is_ok());
    p.handle_command(Command::Pause);
    assert!(p.is_paused());
    // paused: time passing moves nothing
    assert!(p.tick(1000).is_ok());
    assert_eq!(p.get_position(), 300);
    p.handle_command(Command::Stop);
    assert!(p.tick(0).is_ok());
    assert_eq!(p.get_position(), 0);
}

#[test]
fn set_track_volume_mixes_current_track() {
    let mut p: Player<TestSource> = Player::new();
    p.handle_command(Command::SetStream(stream(&[&[1000], &[1000, 1000, 1000]])));
    p.handle_command(Command::SetVolume(1000));
    p.handle_command(Command::SetTrackVolume(300, 1, 0));
    match &p.stream {
        Some(s) => {
            assert_eq!(s.playlists[1].tracks[0].volume, 300);
            assert_eq!(s.playlists[1].sink.volume, 300);
        },
        None => panic!("stream expected"),
    }
}

#[test]
fn goto_track_forces_lane_position() {
    let mut p: Player<TestSource> = Player::new();
    p.handle_command(Command::SetStream(stream(&[&[1000, 1000, 1000]])));
    p.handle_command(Command::GotoTrack(0, 2));
    assert!(p.tick(0).is_ok());
    assert_eq!(p.currently_playing(), vec![2]);
}
