use dtp_client::codec::DecodeError;
use dtp_client::input::{parse_command, InputError};
use dtp_client::machine::{Action, Command, Machine, Phase};
use dtp_client::packet::C2S;
use dtp_client::session::{dispatch, room_address, Frame, Outbox, Outcome};

#[test]
fn address_joins_base_and_id_with_a_slash() {
    assert_eq!(room_address("wss://relay.example", "room7"), "wss://relay.example/room7");
    assert_eq!(room_address("", ""), "/");
}

#[test]
fn parse_play_takes_the_rest_of_the_line() {
    assert_eq!(parse_command("play abc"), Ok(Command::Play { yt_link: "abc".to_string() }));
    assert_eq!(parse_command("play "), Ok(Command::Play { yt_link: String::new() }));
    assert_eq!(
        parse_command("play a play b"),
        Ok(Command::Play { yt_link: "a play b".to_string() })
    );
    assert_eq!(
        parse_command("play \u{e9}t\u{e9}"),
        Ok(Command::Play { yt_link: "\u{e9}t\u{e9}".to_string() })
    );
}

#[test]
fn parse_skip_is_exact() {
    assert_eq!(parse_command("skip"), Ok(Command::Skip));
    assert_eq!(parse_command("skip "), Err(InputError::Unrecognised));
    assert_eq!(parse_command(" skip"), Err(InputError::Unrecognised));
}

#[test]
fn parse_rejects_everything_else() {
    assert_eq!(parse_command(""), Err(InputError::Unrecognised));
    assert_eq!(parse_command("play"), Err(InputError::Unrecognised));
    assert_eq!(parse_command("playabc"), Err(InputError::Unrecognised));
    assert_eq!(parse_command("Play abc"), Err(InputError::Unrecognised));
    assert_eq!(parse_command("stop"), Err(InputError::Unrecognised));
}

#[test]
fn dispatch_feeds_text_to_the_machine() {
    let (mut m, _) = Machine::open("me".to_string());
    let out = dispatch(&mut m, Frame::Text("{\"Play\":{\"yt_link\":\"abc\"}}".to_string()));
    assert_eq!(out, Outcome::Acted(Some(Action::Fetch { seq: 1, yt_link: "abc".to_string() })));
    assert_eq!(m.phase(), Phase::Downloading);
    let out = dispatch(&mut m, Frame::Text("{\"ConnectNotification\":{\"id\":\"me\"}}".to_string()));
    assert_eq!(out, Outcome::Acted(None));
    assert_eq!(m.phase(), Phase::Downloading);
}

#[test]
fn dispatch_reports_malformed_text_and_goes_on() {
    let (mut m, _) = Machine::open("me".to_string());
    let out = dispatch(&mut m, Frame::Text("not json".to_string()));
    assert_eq!(out, Outcome::Rejected(DecodeError::NotAMessage));
    let out = dispatch(&mut m, Frame::Text("\"Dance\"".to_string()));
    assert_eq!(out, Outcome::Rejected(DecodeError::UnknownTag));
    assert_eq!(m.phase(), Phase::Idle);
    assert_eq!(m.latest_seq(), 0);
}

#[test]
fn dispatch_answers_ping_with_the_same_payload() {
    let (mut m, _) = Machine::open("me".to_string());
    assert_eq!(dispatch(&mut m, Frame::Ping(vec![1, 2, 3])), Outcome::Pong(vec![1, 2, 3]));
    assert_eq!(dispatch(&mut m, Frame::Pong(vec![9])), Outcome::PongSeen);
    assert_eq!(dispatch(&mut m, Frame::Close), Outcome::Closed);
    assert_eq!(dispatch(&mut m, Frame::Other), Outcome::Ignored);
    assert_eq!(m.phase(), Phase::Idle);
}

#[test]
fn outbox_keeps_submission_order() {
    let mut o = Outbox::new();
    assert_eq!(o.pending(), 0);
    assert_eq!(o.take(), None);
    o.send(&C2S::Ready1);
    o.send(&C2S::Play { yt_link: "abc".to_string() });
    assert_eq!(o.pending(), 2);
    assert_eq!(o.take(), Some("\"Ready1\"".to_string()));
    o.send(&C2S::Skip);
    assert_eq!(o.take(), Some("{\"Play\":{\"yt_link\":\"abc\"}}".to_string()));
    assert_eq!(o.take(), Some("\"Skip\"".to_string()));
    assert_eq!(o.take(), None);
    assert_eq!(o.pending(), 0);
}

#[test]
fn first_outbound_frame_is_ready1() {
    let (_, first) = Machine::open("me".to_string());
    let mut o = Outbox::new();
    o.send(&first);
    assert_eq!(o.take(), Some("\"Ready1\"".to_string()));
}
