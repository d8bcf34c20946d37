use dtp_client::machine::{Action, Command, EngineState, Event, Fault, Machine, Phase};
use dtp_client::packet::{ConnectNotification, DisconnectNotification, C2S, S2C};

fn play(link: &str) -> Event {
    Event::Server(S2C::Play { yt_link: link.to_string() })
}

fn fresh() -> Machine {
    Machine::open("me".to_string()).0
}

fn ready_to_start() -> Machine {
    let mut m = fresh();
    m.step(play("abc"));
    m.step(Event::FetchDone { seq: 1, ok: true });
    m
}

#[test]
fn session_opens_idle_with_ready1() {
    let (m, first) = Machine::open("room".to_string());
    assert_eq!(first, C2S::Ready1);
    assert_eq!(m.phase(), Phase::Idle);
    assert_eq!(m.latest_seq(), 0);
    assert!(!m.is_engaged());
    assert!(m.can_number());
}

#[test]
fn play_starts_fetch_and_success_sends_ready2() {
    let mut m = fresh();
    let act = m.step(play("abc"));
    assert_eq!(act, Some(Action::Fetch { seq: 1, yt_link: "abc".to_string() }));
    assert_eq!(m.phase(), Phase::Downloading);
    let act = m.step(Event::FetchDone { seq: 1, ok: true });
    assert_eq!(act, Some(Action::Send(C2S::Ready2)));
    assert_eq!(m.phase(), Phase::ReadyToStart);
}

#[test]
fn superseded_download_is_discarded() {
    let mut m = fresh();
    assert_eq!(m.step(play("abc")), Some(Action::Fetch { seq: 1, yt_link: "abc".to_string() }));
    assert_eq!(m.step(play("xyz")), Some(Action::Fetch { seq: 2, yt_link: "xyz".to_string() }));
    assert_eq!(m.latest_seq(), 2);
    assert_eq!(m.step(Event::FetchDone { seq: 1, ok: true }), None);
    assert_eq!(m.phase(), Phase::Downloading);
    assert_eq!(m.step(Event::FetchDone { seq: 2, ok: true }), Some(Action::Send(C2S::Ready2)));
    assert_eq!(m.phase(), Phase::ReadyToStart);
}

#[test]
fn ready2_is_sent_once_per_play() {
    let mut m = ready_to_start();
    assert_eq!(m.step(Event::FetchDone { seq: 1, ok: true }), None);
    assert_eq!(m.step(Event::FetchDone { seq: 1, ok: false }), None);
    assert_eq!(m.phase(), Phase::ReadyToStart);
}

#[test]
fn play_supersedes_while_ready_to_start() {
    let mut m = ready_to_start();
    assert_eq!(m.step(play("next")), Some(Action::Fetch { seq: 2, yt_link: "next".to_string() }));
    assert_eq!(m.phase(), Phase::Downloading);
}

#[test]
fn start_then_playing_then_ended() {
    let mut m = ready_to_start();
    assert_eq!(m.step(Event::Server(S2C::Start)), Some(Action::LoadAndPlay));
    assert_eq!(m.phase(), Phase::ReadyToStart);
    assert!(m.is_engaged());
    assert_eq!(m.step(Event::Engine(EngineState::Playing)), Some(Action::Send(C2S::Playing)));
    assert_eq!(m.phase(), Phase::PlayingLocally);
    assert_eq!(m.step(Event::Engine(EngineState::Ended)), Some(Action::Send(C2S::Ready1)));
    assert_eq!(m.phase(), Phase::Idle);
    assert!(!m.is_engaged());
}

#[test]
fn skip_while_downloading_goes_idle_without_stop() {
    let mut m = fresh();
    m.step(play("abc"));
    assert_eq!(m.step(Event::Server(S2C::Skip)), None);
    assert_eq!(m.phase(), Phase::Idle);
    assert_eq!(m.step(Event::FetchDone { seq: 1, ok: true }), None);
    assert_eq!(m.step(Event::FetchDone { seq: 1, ok: false }), None);
    assert_eq!(m.phase(), Phase::Idle);
}

#[test]
fn skip_while_playing_stops_the_engine() {
    let mut m = ready_to_start();
    m.step(Event::Server(S2C::Start));
    m.step(Event::Engine(EngineState::Playing));
    assert_eq!(m.step(Event::Server(S2C::Skip)), Some(Action::StopPlayback));
    assert_eq!(m.phase(), Phase::Idle);
    assert!(!m.is_engaged());
}

#[test]
fn skip_after_start_before_playing_stops_the_engine() {
    let mut m = ready_to_start();
    m.step(Event::Server(S2C::Start));
    assert_eq!(m.step(Event::Server(S2C::Skip)), Some(Action::StopPlayback));
    assert_eq!(m.phase(), Phase::Idle);
}

#[test]
fn own_join_is_silent_however_often() {
    let mut m = ready_to_start();
    for _ in 0..5 {
        let act = m.step(Event::Server(S2C::ConnectNotification(ConnectNotification {
            id: "me".to_string(),
        })));
        assert_eq!(act, None);
        assert_eq!(m.phase(), Phase::ReadyToStart);
        assert_eq!(m.latest_seq(), 1);
        assert!(!m.is_engaged());
    }
}

#[test]
fn own_leave_is_silent() {
    let mut m = fresh();
    let act = m.step(Event::Server(S2C::DisconnectNotification(DisconnectNotification {
        id: "me".to_string(),
    })));
    assert_eq!(act, None);
    assert_eq!(m.phase(), Phase::Idle);
}

#[test]
fn peers_are_announced() {
    let mut m = fresh();
    let act = m.step(Event::Server(S2C::ConnectNotification(ConnectNotification {
        id: "bob".to_string(),
    })));
    assert_eq!(act, Some(Action::Announce { joined: true, id: "bob".to_string() }));
    let act = m.step(Event::Server(S2C::DisconnectNotification(DisconnectNotification {
        id: "bob".to_string(),
    })));
    assert_eq!(act, Some(Action::Announce { joined: false, id: "bob".to_string() }));
    assert_eq!(m.phase(), Phase::Idle);
}

#[test]
fn failed_download_is_reported_and_reverts_to_idle() {
    let mut m = fresh();
    m.step(play("abc"));
    assert_eq!(
        m.step(Event::FetchDone { seq: 1, ok: false }),
        Some(Action::Report(Fault::DownloadFailed))
    );
    assert_eq!(m.phase(), Phase::Idle);
}

#[test]
fn playback_error_is_reported_and_stays() {
    let mut m = ready_to_start();
    m.step(Event::Server(S2C::Start));
    m.step(Event::Engine(EngineState::Playing));
    assert_eq!(
        m.step(Event::Engine(EngineState::Error)),
        Some(Action::Report(Fault::PlaybackFailed))
    );
    assert_eq!(m.phase(), Phase::PlayingLocally);
}

#[test]
fn start_outside_ready_to_start_is_ignored() {
    let mut m = fresh();
    assert_eq!(m.step(Event::Server(S2C::Start)), None);
    assert_eq!(m.phase(), Phase::Idle);
    assert!(!m.is_engaged());
}

#[test]
fn engine_reports_outside_playback_send_nothing() {
    let mut m = fresh();
    assert_eq!(m.step(Event::Engine(EngineState::Playing)), None);
    assert_eq!(m.step(Event::Engine(EngineState::Ended)), None);
    assert_eq!(m.step(Event::Engine(EngineState::Error)), None);
    assert_eq!(m.phase(), Phase::Idle);
}

#[test]
fn user_commands_are_forwarded_without_moving() {
    let mut m = ready_to_start();
    let act = m.step(Event::User(Command::Play { yt_link: "abc".to_string() }));
    assert_eq!(act, Some(Action::Send(C2S::Play { yt_link: "abc".to_string() })));
    assert_eq!(m.step(Event::User(Command::Skip)), Some(Action::Send(C2S::Skip)));
    assert_eq!(m.phase(), Phase::ReadyToStart);
    assert_eq!(m.latest_seq(), 1);
}
