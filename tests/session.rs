use soundkid::config::{Config, ConfigAlsa, ConfigSpotify};
use soundkid::media::MediaKind;
use soundkid::resolver::{InputChannelMessage, InputDeviceType, ResolvedAction};
use soundkid::router::InputRouter;
use soundkid::session::{Command, PlaybackSession, SessionState};

fn play(r: &str) -> ResolvedAction {
    ResolvedAction::Play(r.to_string())
}

fn is_load(c: &Command, ticket: u64, item: &str, start: bool) -> bool {
    match c {
        Command::Load { ticket: t, item: i, start: s } => *t == ticket && i == item && *s == start,
        _ => false,
    }
}

#[test]
fn pause_while_idle_does_nothing() {
    let mut s = PlaybackSession::new("scheme");
    let cmds = s.handle_action(ResolvedAction::Pause);
    assert!(cmds.is_empty());
    assert_eq!(s.state(), SessionState::Idle);
    assert_eq!(s.ticket(), 0);
    assert!(s.handle_action(ResolvedAction::Resume).is_empty());
    assert_eq!(s.state(), SessionState::Idle);
}

#[test]
fn single_track_plays_and_ends() {
    let mut s = PlaybackSession::new("scheme");
    let cmds = s.handle_action(play("scheme:track:ABC"));
    assert_eq!(cmds.len(), 1);
    assert!(is_load(&cmds[0], 1, "ABC", true));
    assert_eq!(s.state(), SessionState::Playing);
    assert!(s.track_finished(1).is_empty());
    assert_eq!(s.state(), SessionState::Idle);
}

#[test]
fn play_preempts_running_sequence() {
    let mut s = PlaybackSession::new("scheme");
    let a = s.handle_action(play("scheme:album:A"));
    assert_eq!(a.len(), 1);
    match &a[0] {
        Command::Fetch { ticket, reference } => {
            assert_eq!(*ticket, 1);
            assert_eq!(reference.kind, MediaKind::Album);
            assert_eq!(reference.canonical_id, "scheme:album:A");
        }
        other => panic!("unexpected {:?}", other),
    }
    let l = s.collection_loaded(1, vec!["a1".to_string(), "a2".to_string(), "a3".to_string()]);
    assert!(is_load(&l[0], 1, "a1", true));
    let b = s.handle_action(play("https://host/track/B1"));
    assert_eq!(b.len(), 2);
    assert!(matches!(b[0], Command::Stop));
    assert!(is_load(&b[1], 2, "B1", true));
    assert!(s.track_finished(1).is_empty());
    assert!(s.collection_loaded(1, vec!["a9".to_string()]).is_empty());
    assert_eq!(s.state(), SessionState::Playing);
    assert!(s.track_finished(2).is_empty());
    assert_eq!(s.state(), SessionState::Idle);
}

#[test]
fn collection_plays_in_order() {
    let mut s = PlaybackSession::new("spotify");
    s.handle_action(play("spotify:playlist:P"));
    let l = s.collection_loaded(1, vec!["p1".to_string(), "p2".to_string()]);
    assert_eq!(l.len(), 1);
    assert!(is_load(&l[0], 1, "p1", true));
    let n = s.track_finished(1);
    assert_eq!(n.len(), 1);
    assert!(is_load(&n[0], 1, "p2", true));
    assert!(s.track_finished(1).is_empty());
    assert_eq!(s.state(), SessionState::Idle);
}

#[test]
fn empty_collection_goes_idle() {
    let mut s = PlaybackSession::new("spotify");
    s.handle_action(play("spotify:album:EMPTY"));
    assert!(s.collection_loaded(1, Vec::new()).is_empty());
    assert_eq!(s.state(), SessionState::Idle);
}

#[test]
fn unknown_reference_stops_and_idles() {
    let mut s = PlaybackSession::new("spotify");
    s.handle_action(play("spotify:track:T"));
    let c = s.handle_action(play("nothing to play"));
    assert_eq!(c.len(), 1);
    assert!(matches!(c[0], Command::Stop));
    assert_eq!(s.state(), SessionState::Idle);
    assert!(s.handle_action(play("nothing")).is_empty());
}

#[test]
fn pause_and_resume() {
    let mut s = PlaybackSession::new("spotify");
    s.handle_action(play("spotify:track:T"));
    let p = s.handle_action(ResolvedAction::Pause);
    assert!(matches!(p[..], [Command::Pause]));
    assert_eq!(s.state(), SessionState::Paused);
    assert!(s.handle_action(ResolvedAction::Pause).is_empty());
    let r = s.handle_action(ResolvedAction::Resume);
    assert!(matches!(r[..], [Command::Resume]));
    assert_eq!(s.state(), SessionState::Playing);
}

#[test]
fn paused_while_fetching_loads_without_start() {
    let mut s = PlaybackSession::new("spotify");
    s.handle_action(play("spotify:album:A"));
    s.handle_action(ResolvedAction::Pause);
    let l = s.collection_loaded(1, vec!["a1".to_string()]);
    assert!(is_load(&l[0], 1, "a1", false));
    assert_eq!(s.state(), SessionState::Paused);
}

#[test]
fn volume_keeps_state() {
    let mut s = PlaybackSession::new("spotify");
    let u = s.handle_action(ResolvedAction::VolumeUp);
    assert!(matches!(u[..], [Command::VolumeUp]));
    let d = s.handle_action(ResolvedAction::VolumeDown);
    assert!(matches!(d[..], [Command::VolumeDown]));
    assert!(s.handle_action(ResolvedAction::Unknown).is_empty());
    assert_eq!(s.state(), SessionState::Idle);
}

fn config() -> Config {
    Config {
        gpio: vec![("chip0".to_string(), vec![(3, "VOLUME_DOWN".to_string())])],
        input: vec![("nfc0".to_string(), vec![("42".to_string(), "scheme:track:ABC".to_string())])],
        alsa: ConfigAlsa { control: "Master".to_string() },
        spotify: ConfigSpotify { username: "u".to_string(), password: "p".to_string() },
    }
}

fn msg(t: InputDeviceType, device: &str, id: &str) -> InputChannelMessage {
    InputChannelMessage { device_type: t, device: device.to_string(), id: id.to_string() }
}

#[test]
fn tag_scan_plays_track_end_to_end() {
    let conf = config();
    let mut router = InputRouter::new();
    let mut s = PlaybackSession::new("scheme");
    assert_eq!(s.state(), SessionState::Idle);
    let a = router.route(&conf, &msg(InputDeviceType::Evdev, "nfc0", "42"), 0).unwrap();
    let cmds = s.handle_action(a);
    assert_eq!(s.state(), SessionState::Playing);
    let loads: Vec<&Command> = cmds.iter().filter(|c| matches!(c, Command::Load { .. })).collect();
    assert_eq!(loads.len(), 1);
    assert!(is_load(loads[0], s.ticket(), "ABC", true));
    let t = s.ticket();
    assert!(s.track_finished(t).is_empty());
    assert_eq!(s.state(), SessionState::Idle);
}

#[test]
fn bouncing_button_lowers_volume_once() {
    let conf = config();
    let mut router = InputRouter::new();
    let mut s = PlaybackSession::new("scheme");
    let mut downs = 0;
    for now in [1000u64, 1100u64] {
        if let Some(a) = router.route(&conf, &msg(InputDeviceType::Gpio, "chip0", "3"), now) {
            for c in s.handle_action(a) {
                if matches!(c, Command::VolumeDown) {
                    downs += 1;
                }
            }
        }
    }
    assert_eq!(downs, 1);
}

#[test]
fn unconfigured_event_not_forwarded() {
    let conf = config();
    let mut router = InputRouter::new();
    assert!(router.route(&conf, &msg(InputDeviceType::Evdev, "nfc0", "41"), 0).is_none());
    assert!(router.route(&conf, &msg(InputDeviceType::Evdev, "nfc9", "42"), 0).is_none());
    assert!(router.route(&conf, &msg(InputDeviceType::Gpio, "chip0", "7"), 0).is_none());
    assert!(router.route(&conf, &msg(InputDeviceType::Gpio, "chip0", "three"), 0).is_none());
}

#[test]
fn tag_reads_are_not_debounced() {
    let conf = config();
    let mut router = InputRouter::new();
    assert!(router.route(&conf, &msg(InputDeviceType::Evdev, "nfc0", "42"), 10).is_some());
    assert!(router.route(&conf, &msg(InputDeviceType::Evdev, "nfc0", "42"), 20).is_some());
}

#[test]
fn debounce_counts_unrecognised_lines() {
    let conf = config();
    let mut router = InputRouter::new();
    assert!(router.route(&conf, &msg(InputDeviceType::Gpio, "chip0", "3"), 0).is_some());
    assert!(router.route(&conf, &msg(InputDeviceType::Gpio, "chip0", "3"), 150).is_none());
    assert!(router.route(&conf, &msg(InputDeviceType::Gpio, "chip0", "3"), 250).is_some());
}
