use nyquist::create_playlist;
use nyquist::CommandAction;
use nyquist::DriverAction;
use nyquist::EngineState;
use nyquist::Message;
use nyquist::MessageValue;
use nyquist::Track;
use nyquist::DEFAULT_VOLUME_BITS;

fn track(path: &str) -> Track {
    Track { path: path.to_string() }
}

fn paths(tracks: &[Track]) -> Vec<String> {
    tracks.iter().map(|t| t.path.clone()).collect()
}

#[test]
fn fresh_playlist_is_empty_and_idle() {
    let p = create_playlist();
    assert!(p.list().is_empty());
    assert_eq!(p.get_time(), (0, 0));
    assert!(!p.has_session());
    assert_eq!(p.get_vol(), DEFAULT_VOLUME_BITS);
}

#[test]
fn default_volume_bits_decode_to_one_hundred() {
    assert_eq!(f64::from_bits(DEFAULT_VOLUME_BITS), 100.0);
}

#[test]
fn list_returns_enqueued_tracks_in_insertion_order() {
    let mut p = create_playlist();
    let names = ["a.mp3", "b.ogg", "c.flac", "a.mp3"];
    for (n, name) in names.iter().enumerate() {
        p.add_to_playlist(track(name));
        assert_eq!(p.list().len(), n + 1);
    }
    assert_eq!(paths(&p.list()), names.to_vec());
}

#[test]
fn driver_is_idle_with_nothing_selected() {
    let p = create_playlist();
    assert!(matches!(p.driver_step(), DriverAction::Idle));
}

#[test]
fn driver_starts_the_selected_track_and_records_its_duration() {
    let mut p = create_playlist();
    p.add_to_playlist(track("a.mp3"));
    match p.driver_step() {
        DriverAction::StartSelected { path } => assert_eq!(path, "a.mp3"),
        other => panic!("expected the driver to start the track, got {:?}", other),
    }
    let pause_now = p.on_stream_opened(180_000);
    assert!(!pause_now);
    assert!(p.has_session());
    assert_eq!(p.get_time(), (180_000, 0));
    assert!(matches!(p.driver_step(), DriverAction::SamplePosition));
}

#[test]
fn pause_with_no_session_is_a_guarded_no_op() {
    let mut p = create_playlist();
    p.add_to_playlist(track("a.mp3"));
    let act = p.apply_command(Message::PlaybackPause, MessageValue::none(), None);
    assert_eq!(act, CommandAction::NoAction);
    // The track then starts unpaused: no pause survived to be honored.
    let pause_now = p.on_stream_opened(1_000);
    assert!(!pause_now);
}

#[test]
fn pause_is_idempotent_once_processed() {
    let mut p = create_playlist();
    p.add_to_playlist(track("a.mp3"));
    p.on_stream_opened(60_000);
    let first = p.apply_command(
        Message::PlaybackPause,
        MessageValue::none(),
        Some(EngineState::Playing),
    );
    assert_eq!(first, CommandAction::PauseSession);
    let after_first = p.list();
    // The engine now reports the session paused, so the second pause's
    // guard fails and nothing changes.
    let second = p.apply_command(
        Message::PlaybackPause,
        MessageValue::none(),
        Some(EngineState::Paused),
    );
    assert_eq!(second, CommandAction::NoAction);
    assert_eq!(paths(&p.list()), paths(&after_first));
    assert_eq!(p.get_time(), (60_000, 0));
}

#[test]
fn resume_is_idempotent_once_processed() {
    let mut p = create_playlist();
    p.add_to_playlist(track("a.mp3"));
    p.on_stream_opened(60_000);
    p.apply_command(Message::PlaybackPause, MessageValue::none(), Some(EngineState::Playing));
    let first = p.apply_command(
        Message::PlaybackResume,
        MessageValue::none(),
        Some(EngineState::Paused),
    );
    assert_eq!(first, CommandAction::ResumeSession);
    let second = p.apply_command(
        Message::PlaybackResume,
        MessageValue::none(),
        Some(EngineState::Playing),
    );
    assert_eq!(second, CommandAction::NoAction);
}

#[test]
fn pause_then_resume_ends_playing() {
    let mut p = create_playlist();
    p.add_to_playlist(track("a.mp3"));
    p.on_stream_opened(60_000);
    let a1 = p.apply_command(
        Message::PlaybackPause,
        MessageValue::none(),
        Some(EngineState::Playing),
    );
    assert_eq!(a1, CommandAction::PauseSession);
    // The command loop performed the pause, so the engine reports a pause
    // when the next command in FIFO order is handled.
    let a2 = p.apply_command(
        Message::PlaybackResume,
        MessageValue::none(),
        Some(EngineState::Paused),
    );
    assert_eq!(a2, CommandAction::ResumeSession);
}

#[test]
fn volume_command_stores_and_forwards_the_same_bits() {
    let mut p = create_playlist();
    p.add_to_playlist(track("a.mp3"));
    p.on_stream_opened(60_000);
    let bits = 55.5f64.to_bits();
    let act = p.apply_command(
        Message::EffectVolume,
        MessageValue::float(bits),
        Some(EngineState::Playing),
    );
    assert_eq!(act, CommandAction::SetSessionVolume { bits });
    assert_eq!(p.get_vol(), bits);
    assert_eq!(f64::from_bits(p.get_vol()), 55.5);
}

#[test]
fn volume_command_without_a_session_does_nothing() {
    let mut p = create_playlist();
    let before = p.get_vol();
    let act = p.apply_command(Message::EffectVolume, MessageValue::float(1), None);
    assert_eq!(act, CommandAction::NoAction);
    assert_eq!(p.get_vol(), before);
}

#[test]
fn set_vol_then_get_vol_returns_exactly_the_set_value() {
    let mut p = create_playlist();
    let bits = 12.25f64.to_bits();
    p.set_vol(bits);
    assert_eq!(p.get_vol(), bits);
    assert_eq!(f64::from_bits(p.get_vol()), 12.25);
}

#[test]
fn noop_kinds_are_ignored() {
    let mut p = create_playlist();
    p.add_to_playlist(track("a.mp3"));
    p.on_stream_opened(60_000);
    let before_queue = paths(&p.list());
    let a1 = p.apply_command(Message::Noop, MessageValue::none(), Some(EngineState::Playing));
    let a2 = p.apply_command(
        Message::PlaylistUpdated,
        MessageValue::none(),
        Some(EngineState::Playing),
    );
    assert_eq!(a1, CommandAction::NoAction);
    assert_eq!(a2, CommandAction::NoAction);
    assert_eq!(paths(&p.list()), before_queue);
}

#[test]
fn message_value_constructors_populate_one_slot() {
    let none = MessageValue::none();
    assert!(none.float.is_none() && none.integer.is_none() && none.string.is_none());
    let f = MessageValue::float(9);
    assert_eq!(f.float, Some(9));
    assert!(f.integer.is_none() && f.string.is_none());
    let i = MessageValue::integer(Some(-3));
    assert_eq!(i.integer, Some(-3));
    assert!(i.float.is_none() && i.string.is_none());
    let s = MessageValue::string(Some("x".to_string()));
    assert_eq!(s.string.as_deref(), Some("x"));
    assert!(s.float.is_none() && s.integer.is_none());
}

#[test]
fn playback_scenario_elapsed_advances_pauses_and_resumes() {
    let mut p = create_playlist();
    p.add_to_playlist(track("a.mp3"));
    match p.driver_step() {
        DriverAction::StartSelected { path } => assert_eq!(path, "a.mp3"),
        other => panic!("expected the driver to start the track, got {:?}", other),
    }
    p.on_stream_opened(240_000);
    assert_eq!(paths(&p.list()), vec!["a.mp3".to_string()]);
    // Elapsed time starts at zero and follows what the engine reports.
    assert_eq!(p.get_time(), (240_000, 0));
    p.record_position(1_000);
    p.record_position(2_000);
    assert_eq!(p.get_time(), (240_000, 2_000));
    // Pause: the engine stops advancing, so the recorded position stays.
    let act = p.apply_command(
        Message::PlaybackPause,
        MessageValue::none(),
        Some(EngineState::Playing),
    );
    assert_eq!(act, CommandAction::PauseSession);
    p.record_position(2_000);
    assert_eq!(p.get_time(), (240_000, 2_000));
    // Resume: elapsed goes on from where it stopped, not from zero.
    let act = p.apply_command(
        Message::PlaybackResume,
        MessageValue::none(),
        Some(EngineState::Paused),
    );
    assert_eq!(act, CommandAction::ResumeSession);
    p.record_position(2_500);
    assert_eq!(p.get_time(), (240_000, 2_500));
}

#[test]
fn unplayable_track_leaves_the_rest_of_the_state_intact() {
    let mut p = create_playlist();
    p.add_to_playlist(track("good.mp3"));
    p.add_to_playlist(track("/nonexistent"));
    let bits = 80.0f64.to_bits();
    p.set_vol(bits);
    match p.driver_step() {
        DriverAction::StartSelected { path } => assert_eq!(path, "/nonexistent"),
        other => panic!("expected the driver to start the track, got {:?}", other),
    }
    // The engine failed to open the file: the failure clears only the
    // selection, and everything stays queryable.
    p.on_stream_failed();
    assert!(matches!(p.driver_step(), DriverAction::Idle));
    assert_eq!(
        paths(&p.list()),
        vec!["good.mp3".to_string(), "/nonexistent".to_string()]
    );
    assert_eq!(p.get_vol(), bits);
    assert_eq!(p.get_time(), (0, 0));
    assert!(!p.has_session());
    // The system keeps accepting work afterwards.
    p.add_to_playlist(track("next.mp3"));
    match p.driver_step() {
        DriverAction::StartSelected { path } => assert_eq!(path, "next.mp3"),
        other => panic!("expected the driver to start the track, got {:?}", other),
    }
}
