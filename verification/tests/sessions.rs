use audio_control::audio_controller::effective_coinit_mode;
use audio_control::{
    ApplicationSession, CoinitMode, EndPointSession, ErrorStatus, Session, VolumeLevel,
    VOLUME_SCALE,
};
use audio_control::playback_status_label;

fn app_session() -> Session {
    Session::Application(ApplicationSession::new(77, "spotify".to_string(), 0xabcdef))
}

fn endpoint_session() -> Session {
    Session::EndPoint(EndPointSession::new(11, "master".to_string()))
}

#[test]
fn failed_read_degrades_to_silence_not_a_panic() {
    let s = app_session();
    // the underlying host handle became invalid: the read yields nothing
    let v = s.get_volume(None);
    assert_eq!(v.units, 0);
    assert_eq!(s.get_mute(None), false);
}

#[test]
fn successful_reads_pass_through() {
    let s = endpoint_session();
    let v = s.get_volume(VolumeLevel::new(640));
    assert_eq!(v.units, 640);
    assert_eq!(s.get_mute(Some(true)), true);
}

#[test]
fn set_then_get_round_trips_within_epsilon() {
    let s = app_session();
    let requested: f64 = 0.35;
    let units = (requested * f64::from(VOLUME_SCALE)).round() as u32;
    let cmd = s.set_volume(VolumeLevel::new(units).expect("normalized"));
    // a fake device faithfully stores what the command carries
    let device_state = Some(cmd.level);
    let got = s.get_volume(device_state);
    let read_back = f64::from(got.units) / f64::from(VOLUME_SCALE);
    assert!((read_back - requested).abs() < 1e-9);
}

#[test]
fn volume_commands_target_the_session_handle() {
    let s = app_session();
    let cmd = s.set_volume(VolumeLevel::new(350).unwrap());
    assert_eq!(cmd.target, 77);
    assert_eq!(cmd.level.units, 350);
    assert_eq!(cmd.context, 0xabcdef);
    let e = endpoint_session();
    let cmd = e.set_volume(VolumeLevel::new(350).unwrap());
    assert_eq!(cmd.target, 11);
    assert_eq!(cmd.context, 0, "the endpoint opts out with the null token");
}

#[test]
fn mute_commands_carry_the_correlation_token() {
    let s = app_session();
    let cmd = s.set_mute(true);
    assert_eq!(cmd.target, 77);
    assert!(cmd.mute);
    assert_eq!(cmd.context, 0xabcdef);
    let e = endpoint_session();
    let cmd = e.set_mute(false);
    assert_eq!(cmd.context, 0);
}

#[test]
fn only_the_endpoint_exposes_the_device_volume_handle() {
    assert_eq!(endpoint_session().get_audio_endpoint_volume(), Some(11));
    assert_eq!(app_session().get_audio_endpoint_volume(), None);
}

#[test]
fn session_names_are_reported() {
    assert_eq!(endpoint_session().get_name(), "master");
    assert_eq!(app_session().get_name(), "spotify");
}

#[test]
fn volume_level_accepts_exactly_the_normalized_range() {
    assert!(VolumeLevel::new(0).is_some());
    assert!(VolumeLevel::new(VOLUME_SCALE).is_some());
    assert!(VolumeLevel::new(VOLUME_SCALE + 1).is_none());
    assert_eq!(VolumeLevel::silent().units, 0);
}

#[test]
fn playback_status_labels_are_exhaustive() {
    assert_eq!(playback_status_label(0), "closed");
    assert_eq!(playback_status_label(1), "opened");
    assert_eq!(playback_status_label(2), "changing");
    assert_eq!(playback_status_label(3), "stopped");
    assert_eq!(playback_status_label(4), "playing");
    assert_eq!(playback_status_label(5), "paused");
    assert_eq!(playback_status_label(6), "unknown");
    assert_eq!(playback_status_label(-1), "unknown");
}

#[test]
fn error_status_codes() {
    assert_eq!(ErrorStatus::CantDoSomething.code(), "ERR_STATUS_CANTDSMTGH");
    assert_eq!(ErrorStatus::InvalidCondition.code(), "ERR_STATUS_INVALID");
}

#[test]
fn coinit_mode_defaults_to_multithreaded() {
    assert_eq!(effective_coinit_mode(None), CoinitMode::MultiTreaded);
    assert_eq!(
        effective_coinit_mode(Some(CoinitMode::ApartmentThreaded)),
        CoinitMode::ApartmentThreaded
    );
}
