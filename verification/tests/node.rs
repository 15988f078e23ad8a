use cyberbard::audio::{generate_thread_name, AudioError, AudioNode};
use cyberbard::source::{Source, StreamError};

#[derive(Clone)]
struct TestSource {
    duration_ms: u64,
    ok: bool,
    name: String,
}

impl Source for TestSource {
    fn open(&self) -> Result<u64, StreamError> {
        if self.ok {
            Ok(self.duration_ms)
        } else {
            Err(StreamError::SourceOpenError)
        }
    }

    fn title(&self) -> String {
        self.name.clone()
    }
}

fn test_source() -> TestSource {
    TestSource { duration_ms: 1000, ok: true, name: "test".to_string() }
}

fn get_track() -> AudioNode<TestSource> {
    AudioNode::new_track(test_source())
}

fn get_composition() -> AudioNode<TestSource> {
    AudioNode::new_composition("c".to_string())
}

#[test]
fn track_create() {
    let _ = get_track();
}

#[test]
fn composition_create() {
    let _ = get_composition();
}

#[test]
fn composition_source() {
    let c = get_composition();
    assert!(!c.get_source().is_ok());
}

#[test]
fn track_source() {
    let mut tr = get_track();
    let s = test_source();
    assert_eq!(s.title(), tr.get_source().unwrap().title());
    tr.set_source(s);
    let s = test_source();
    assert_eq!(s.title(), tr.get_source().unwrap().title());
}

#[test]
fn track_looped() {
    let mut tr = get_track();
    assert_eq!(true, tr.is_looped());
    tr.looped(false);
    assert_eq!(false, tr.is_looped());
}

#[test]
fn composition_looped() {
    let mut c = get_composition();
    assert_eq!(true, c.is_looped());
    c.looped(false);
    assert_eq!(false, c.is_looped());
}

#[test]
fn volume_is_clamped_on_every_write() {
    let mut tr = get_track();
    assert_eq!(tr.get_volume(), 1000);
    tr.set_volume(420);
    assert_eq!(tr.get_volume(), 420);
    tr.set_volume(1500);
    assert_eq!(tr.get_volume(), 1000);
    // re-clamping an already clamped value changes nothing
    tr.set_volume(tr.get_volume());
    assert_eq!(tr.get_volume(), 1000);
}

#[test]
fn titles() {
    let mut tr = get_track();
    assert_eq!(tr.get_title(), "test");
    tr.set_title("renamed".to_string());
    assert_eq!(tr.get_title(), "renamed");
}

#[test]
fn thread_management() {
    let mut c = get_composition();
    assert_eq!(c.push_thread("a"), Ok(()));
    assert_eq!(c.push_thread("b"), Ok(()));
    // thread names are unique within a composition
    assert_eq!(c.push_thread("a"), Err(AudioError::OutOfRange));
    assert_eq!(c.threads(), Ok(vec!["a".to_string(), "b".to_string()]));
    assert_eq!(c.index_of_thread("b"), 1);
    assert_eq!(c.index_of_thread("zzz"), 2);
    assert!(c.is_thread_empty("a"));

    c.rename_thread("a", "c");
    assert_eq!(c.threads(), Ok(vec!["c".to_string(), "b".to_string()]));
    // renaming onto a taken name changes nothing
    c.rename_thread("c", "b");
    assert_eq!(c.threads(), Ok(vec!["c".to_string(), "b".to_string()]));

    c.remove_thread("c");
    assert_eq!(c.threads(), Ok(vec!["b".to_string()]));
    c.remove_thread("missing");
    assert_eq!(c.threads(), Ok(vec!["b".to_string()]));
}

#[test]
fn threads_on_track_refused() {
    let mut tr = get_track();
    assert_eq!(tr.push_thread("a"), Err(AudioError::NotAComposition));
    assert_eq!(tr.threads(), Err(AudioError::NotAComposition));
    assert_eq!(tr.push_audio("a", get_track()), Err(AudioError::NotAComposition));
    assert_eq!(tr.remove_audio("a", 0), Err(AudioError::NotAComposition));
    assert!(tr.get_audio("a", 0).is_err());
    assert_eq!(tr.audio_count("a"), 0);
    assert_eq!(tr.index_of_thread("a"), 0);
    assert!(tr.is_thread_empty("a"));
}

#[test]
fn children_management() {
    let mut c = get_composition();
    assert_eq!(c.push_audio("a", get_track()), Err(AudioError::OutOfRange));
    assert_eq!(c.push_thread("a"), Ok(()));
    assert_eq!(c.push_audio("a", get_track()), Ok(()));
    assert_eq!(c.push_audio("a", get_composition()), Ok(()));
    assert_eq!(c.audio_count("a"), 2);
    assert!(!c.is_thread_empty("a"));
    assert!(c.get_audio("a", 0).is_ok());
    assert!(c.get_audio("a", 2).is_err());
    assert_eq!(c.remove_audio("a", 2), Err(AudioError::OutOfRange));
    assert_eq!(c.remove_audio("a", 0), Ok(()));
    assert_eq!(c.audio_count("a"), 1);
}

#[test]
fn composition_source_error_kind() {
    let c = get_composition();
    match c.get_source() {
        Err(e) => assert_eq!(e, AudioError::NotATrack),
        Ok(_) => panic!("a composition has no source"),
    }
}

#[test]
fn thread_names_reach_two_digits() {
    let taken: Vec<String> = (1..=10).map(|i| format!("Поток {}", i)).collect();
    assert_eq!(generate_thread_name(taken), "Поток 11");
}

#[test]
fn thread_names_are_generated_in_order() {
    assert_eq!(generate_thread_name(vec![]), "Поток 1");
    assert_eq!(generate_thread_name(vec!["Поток 1".to_string()]), "Поток 2");
    assert_eq!(
        generate_thread_name(vec!["Поток 2".to_string(), "Поток 1".to_string()]),
        "Поток 3"
    );
    assert_eq!(generate_thread_name(vec!["else".to_string()]), "Поток 1");
}

#[test]
fn render_two_threads_two_lanes() {
    // a composition with two named threads renders to two lanes: the
    // first thread's children as lane 0's playlist, the second's as lane 1
    let mut c: AudioNode<TestSource> = AudioNode::new_composition("scene".to_string());
    c.push_thread("Музыка").unwrap();
    c.push_thread("Эффекты").unwrap();
    c.push_audio("Музыка", AudioNode::new_track(TestSource {
        duration_ms: 1000,
        ok: true,
        name: "TrackA".to_string(),
    }))
    .unwrap();
    c.push_audio("Музыка", AudioNode::new_track(TestSource {
        duration_ms: 2000,
        ok: true,
        name: "TrackB".to_string(),
    }))
    .unwrap();
    c.push_audio("Эффекты", AudioNode::new_track(TestSource {
        duration_ms: 3000,
        ok: true,
        name: "TrackC".to_string(),
    }))
    .unwrap();

    let s = c.get_stream().expect("a composition with tracks renders");
    assert_eq!(s.playlists.len(), 2);
    assert_eq!(s.playlists[0].tracks.len(), 2);
    assert_eq!(s.playlists[0].tracks[0].duration_ms, 1000);
    assert_eq!(s.playlists[0].tracks[1].source.name, "TrackB");
    assert_eq!(s.playlists[1].tracks.len(), 1);
    assert_eq!(s.playlists[1].tracks[0].source.name, "TrackC");

    // position() reports lane 0's progress
    let mut s = s;
    s.play();
    assert!(s.update(500).is_ok());
    assert_eq!(s.get_position(), 500);
}

#[test]
fn render_nested_composition_flattens_positionally() {
    let mut inner: AudioNode<TestSource> = AudioNode::new_composition("inner".to_string());
    inner.push_thread("x").unwrap();
    inner.push_audio("x", get_track()).unwrap();

    let mut outer: AudioNode<TestSource> = AudioNode::new_composition("outer".to_string());
    outer.push_thread("main").unwrap();
    outer.push_audio("main", get_track()).unwrap();
    outer.push_audio("main", inner).unwrap();

    // the nested composition's lane is concatenated onto the thread's lane
    let s = outer.get_stream().expect("renders");
    assert_eq!(s.playlists.len(), 1);
    assert_eq!(s.playlists[0].tracks.len(), 2);
}

#[test]
fn render_keeps_unopenable_tracks_in_lane() {
    // a track whose source fails to open stays in its planned lane,
    // recorded as failed and skipped, and is retried as the lane cycles
    let mut c: AudioNode<TestSource> = AudioNode::new_composition("scene".to_string());
    c.push_thread("a").unwrap();
    c.push_audio("a", AudioNode::new_track(TestSource {
        duration_ms: 0,
        ok: false,
        name: "broken".to_string(),
    }))
    .unwrap();
    c.push_audio("a", AudioNode::new_track(TestSource {
        duration_ms: 1000,
        ok: true,
        name: "fine".to_string(),
    }))
    .unwrap();
    let s = c.get_stream().expect("renders");
    assert_eq!(s.playlists.len(), 1);
    assert_eq!(s.playlists[0].tracks.len(), 2);
    assert_eq!(s.playlists[0].tracks[0].source.name, "broken");
    assert_eq!(s.playlists[0].current, 1);
}

#[test]
fn render_drops_lane_only_when_every_track_fails() {
    let mut c: AudioNode<TestSource> = AudioNode::new_composition("scene".to_string());
    c.push_thread("a").unwrap();
    c.push_audio("a", AudioNode::new_track(TestSource {
        duration_ms: 0,
        ok: false,
        name: "broken".to_string(),
    }))
    .unwrap();
    let s = c.get_stream().expect("a composition with a child renders");
    assert!(s.is_empty());
}

#[test]
fn render_childless_composition_is_none() {
    let mut c: AudioNode<TestSource> = AudioNode::new_composition("empty".to_string());
    assert!(c.get_stream().is_none());
    c.push_thread("a").unwrap();
    assert!(c.get_stream().is_none());
}

#[test]
fn render_track_with_failing_source_is_empty_stream() {
    let tr: AudioNode<TestSource> = AudioNode::new_track(TestSource {
        duration_ms: 0,
        ok: false,
        name: "broken".to_string(),
    });
    let s = tr.get_stream().expect("a track always renders");
    assert!(s.is_empty());
}
