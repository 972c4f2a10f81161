use starleds::color::RGB8;
use starleds::connection::{Phase, Reply, Request};
use starleds::startup::{dark_strip, network_is_named, seed_from_words, Network, LEDS};

fn follow(replies: &[Reply]) -> (Phase, Vec<Request>) {
    let mut phase = Phase::Checking;
    let mut requests = vec![phase.request()];
    for reply in replies {
        phase = phase.next(*reply);
        requests.push(phase.request());
    }
    (phase, requests)
}

#[test]
fn first_connection_configures_starts_and_scans() {
    let (phase, requests) = follow(&[
        Reply::StationState { connected: false },
        Reply::IsStarted { started: Some(false) },
        Reply::Configured { ok: true },
        Reply::Started { ok: true },
        Reply::Scanned { ok: true },
        Reply::ConnectEnded { ok: true },
    ]);
    assert_eq!(phase, Phase::Checking);
    assert_eq!(
        requests,
        vec![
            Request::StationState,
            Request::IsStarted,
            Request::Configure,
            Request::Start,
            Request::Scan { max: 10 },
            Request::Connect,
            Request::StationState,
        ]
    );
}

#[test]
fn lost_connection_is_made_again_after_a_pause() {
    let (_, requests) = follow(&[
        Reply::StationState { connected: true },
        Reply::Disconnected,
        Reply::Paused,
        Reply::IsStarted { started: Some(true) },
        Reply::ConnectEnded { ok: false },
        Reply::Paused,
    ]);
    assert_eq!(
        requests,
        vec![
            Request::StationState,
            Request::AwaitDisconnect,
            Request::Pause { millis: 5000 },
            Request::IsStarted,
            Request::Connect,
            Request::Pause { millis: 5000 },
            Request::StationState,
        ]
    );
}

#[test]
fn controller_that_cannot_tell_is_started_anew() {
    assert_eq!(
        Phase::Unconnected.next(Reply::IsStarted { started: None }),
        Phase::Configuring
    );
}

#[test]
fn controller_failures_are_final() {
    assert_eq!(Phase::Configuring.next(Reply::Configured { ok: false }), Phase::Failed);
    assert_eq!(Phase::Starting.next(Reply::Started { ok: false }), Phase::Failed);
    assert_eq!(Phase::Scanning.next(Reply::Scanned { ok: false }), Phase::Failed);
    assert_eq!(Phase::Failed.request(), Request::GiveUp);
}

#[test]
fn network_comes_up_in_two_steps() {
    assert_eq!(Network::Link.poll(false), (Network::Link, Some(500)));
    assert_eq!(Network::Link.poll(true), (Network::Address, None));
    assert_eq!(Network::Address.poll(false), (Network::Address, Some(500)));
    assert_eq!(Network::Address.poll(true), (Network::Up, None));
}

#[test]
fn placeholder_is_no_network_name() {
    assert!(!network_is_named("PLACEHOLDER"));
    assert!(network_is_named("PLACEHOLDERS"));
    assert!(network_is_named("PLACEHOLDEr"));
    assert!(network_is_named(""));
    assert!(network_is_named("home"));
}

#[test]
fn seed_holds_both_words() {
    assert_eq!(seed_from_words(0x1234_5678, 0x9ABC_DEF0), 0x1234_5678_9ABC_DEF0);
    assert_eq!(seed_from_words(u32::MAX, u32::MAX), u64::MAX);
    assert_eq!(seed_from_words(0, 7), 7);
}

#[test]
fn strip_starts_dark() {
    assert_eq!(dark_strip(), [RGB8 { r: 0, g: 0, b: 0 }; LEDS]);
    assert_eq!(LEDS, 102);
}
