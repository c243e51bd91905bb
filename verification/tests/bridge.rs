use quiz_display::bridge::{
    find_characteristic, judge_scan, not_found_message, status_is_success, Action, BridgeSession,
    Outcome, Results, Scan, ScanAction, ScanError, ScanEvent, ScanOutcome, ScanVerdict,
    SessionError, Step, CONNECT_TIMEOUT_SECS, SCAN_WINDOW_SECS,
};
use quiz_display::display::QuizDisplay;
use quiz_display::firmware::{Event, Firmware, Handles};
use quiz_display::gatt::{CONTROL_CHAR, SERVICE_UUID, VOTES_CHAR};

fn results(votes: [u8; 4], correct: u8, revealed: bool) -> Results {
    Results { votes, correct, revealed }
}

fn connected() -> BridgeSession {
    let mut session = BridgeSession::new();
    session.handle(Outcome::Done);
    session.handle(Outcome::Done);
    session.handle(Outcome::Characteristics(&[SERVICE_UUID, CONTROL_CHAR, VOTES_CHAR]));
    session
}

fn polling(r: Results) -> BridgeSession {
    let mut session = connected();
    session.handle(Outcome::Connected(true));
    session.handle(Outcome::Results(r));
    session
}

/// One poll; the writes go to the firmware.
fn poll(session: &mut BridgeSession, firmware: &mut Firmware, r: Results) -> usize {
    let mut writes = 0;
    session.handle(Outcome::Connected(true));
    session.handle(Outcome::Results(r));
    loop {
        match session.action() {
            Action::WriteVotes { characteristic, votes, .. } => {
                assert_eq!(characteristic, 2);
                assert!(firmware.handle(Event::Write { handle: 1, data: &votes }));
            }
            Action::WriteControl { characteristic, command } => {
                assert_eq!(characteristic, 1);
                assert!(firmware.handle(Event::Write { handle: 2, data: &command }));
            }
            Action::Sleep => break,
            other => panic!("unexpected {:?}", other),
        }
        writes += 1;
        session.handle(Outcome::Done);
    }
    session.handle(Outcome::Done);
    assert_eq!(session.action(), Action::CheckConnection);
    writes
}

#[test]
fn session_runs_through_its_steps() {
    let mut session = BridgeSession::new();
    assert_eq!(session.action(), Action::Scan);
    session.handle(Outcome::Done);
    assert_eq!(session.action(), Action::Connect);
    session.handle(Outcome::Done);
    assert_eq!(session.action(), Action::Discover);
    session.handle(Outcome::Characteristics(&[VOTES_CHAR, CONTROL_CHAR]));
    assert_eq!(session.action(), Action::CheckConnection);
    session.handle(Outcome::Connected(true));
    assert_eq!(session.action(), Action::FetchResults);
    session.handle(Outcome::Results(results([70, 20, 8, 2], 0, true)));
    assert_eq!(
        session.action(),
        Action::WriteVotes { characteristic: 0, votes: [70, 20, 8, 2], fresh: true }
    );
    session.handle(Outcome::Done);
    assert_eq!(session.action(), Action::WriteControl { characteristic: 1, command: [1, 0] });
    session.handle(Outcome::Done);
    assert_eq!(session.action(), Action::Sleep);
    session.handle(Outcome::Done);
    assert_eq!(session.action(), Action::CheckConnection);
}

#[test]
fn errors_of_a_session() {
    let fails = |mut session: BridgeSession, outcome: Outcome, error: SessionError| {
        session.handle(outcome);
        assert_eq!(session.action(), Action::Fail(error));
        let failed = session;
        session.handle(Outcome::Done);
        session.handle(Outcome::Connected(true));
        assert_eq!(session, failed);
    };
    let at = |step: Step| BridgeSession { step, ..connected() };
    for error in
        [ScanError::StartFailed, ScanError::NoEvents, ScanError::StreamEnded, ScanError::NotFound]
    {
        fails(BridgeSession::new(), Outcome::ScanFailed(error), SessionError::Scan(error));
    }
    fails(at(Step::Connecting), Outcome::TimedOut, SessionError::ConnectTimedOut);
    fails(at(Step::Connecting), Outcome::Failed, SessionError::ConnectFailed);
    fails(at(Step::Discovering), Outcome::Failed, SessionError::DiscoverFailed);
    fails(
        at(Step::Discovering),
        Outcome::Characteristics(&[CONTROL_CHAR]),
        SessionError::VotesCharMissing,
    );
    fails(at(Step::Discovering), Outcome::Characteristics(&[]), SessionError::VotesCharMissing);
    fails(
        at(Step::Discovering),
        Outcome::Characteristics(&[VOTES_CHAR]),
        SessionError::ControlCharMissing,
    );
    fails(connected(), Outcome::Connected(false), SessionError::Disconnected);
    fails(connected(), Outcome::Failed, SessionError::Disconnected);
    let r = results([1, 2, 3, 4], 2, true);
    fails(polling(r), Outcome::Failed, SessionError::WriteVotesFailed);
    fails(at(Step::WritingControl(Some(2))), Outcome::Failed, SessionError::WriteBlinkStartFailed);
    fails(at(Step::WritingControl(None)), Outcome::Failed, SessionError::WriteBlinkStopFailed);
}

#[test]
fn server_trouble_is_survived() {
    let mut session = connected();
    let before = session;
    session.handle(Outcome::Connected(true));
    session.handle(Outcome::Failed);
    assert_eq!(session.action(), Action::Sleep);
    session.handle(Outcome::Done);
    assert_eq!(session, before);
}

#[test]
fn votes_are_written_every_time() {
    let r = results([70, 20, 8, 2], 0, false);
    let mut session = polling(r);
    assert!(matches!(session.action(), Action::WriteVotes { fresh: true, .. }));
    session.handle(Outcome::Done);
    assert_eq!(session.action(), Action::Sleep);
    session.handle(Outcome::Done);
    session.handle(Outcome::Connected(true));
    session.handle(Outcome::Results(r));
    assert!(matches!(session.action(), Action::WriteVotes { fresh: false, .. }));
}

#[test]
fn blink_target_of_results() {
    assert_eq!(results([0; 4], 3, true).blink_target(), Some(3));
    assert_eq!(results([0; 4], 3, false).blink_target(), None);
    assert_eq!(results([0; 4], 4, true).blink_target(), None);
}

#[test]
fn display_follows_the_quiz_server() {
    let mut firmware = Firmware::new(Handles { votes: 1, control: 2 }, QuizDisplay::new());
    for _ in 0..3 {
        firmware.handle(Event::StepDone);
    }
    let mut session = connected();
    let story = [
        (results([0, 0, 0, 0], 1, false), 1),
        (results([50, 50, 0, 0], 1, false), 1),
        (results([40, 40, 10, 10], 1, true), 2),
        (results([40, 40, 10, 10], 1, true), 1),
        (results([40, 40, 10, 10], 2, true), 2),
        (results([0, 0, 0, 0], 0, false), 2),
        (results([0, 0, 0, 0], 9, true), 1),
    ];
    for (r, expected_writes) in story {
        assert_eq!(poll(&mut session, &mut firmware, r), expected_writes);
        assert_eq!(firmware.state().votes, r.votes);
        assert_eq!(firmware.state().blink_target, r.blink_target());
        assert_eq!(session.last_blink_target, r.blink_target());
    }
}

#[test]
fn fresh_sessions_agree_that_nothing_blinks() {
    assert_eq!(connected().last_blink_target, None);
    assert_eq!(connected().last_votes, None);
}

#[test]
fn foreign_outcomes_change_nothing() {
    let mut session = connected();
    let before = session;
    session.handle(Outcome::TimedOut);
    session.handle(Outcome::Results(results([1; 4], 0, true)));
    session.handle(Outcome::Characteristics(&[]));
    assert_eq!(session, before);
}

#[test]
fn characteristics_are_found_by_uuid() {
    assert_eq!(find_characteristic(&[5, 7, 7], 7), Some(1));
    assert_eq!(find_characteristic(&[5, 7, 7], 5), Some(0));
    assert_eq!(find_characteristic(&[5, 7, 7], 6), None);
    assert_eq!(find_characteristic(&[], 6), None);
}

#[test]
fn uuids_read_as_documented() {
    let text = |uuid: u128| uuid::Uuid::from_u128(uuid).to_string();
    assert_eq!(text(SERVICE_UUID), "00001000-b0cd-11ec-871f-d45ddf138840");
    assert_eq!(text(VOTES_CHAR), "00001001-b0cd-11ec-871f-d45ddf138840");
    assert_eq!(text(CONTROL_CHAR), "00001002-b0cd-11ec-871f-d45ddf138840");
}

#[test]
fn scan_looks_for_the_name() {
    let target = String::from("RustQuiz");
    let judge = |event: ScanEvent| judge_scan(&target, &event);
    assert_eq!(judge(ScanEvent::Seen(Some("RustQuiz".to_string()))), ScanVerdict::Found);
    assert_eq!(judge(ScanEvent::Seen(Some("rustquiz".to_string()))), ScanVerdict::KeepScanning);
    assert_eq!(judge(ScanEvent::Seen(None)), ScanVerdict::KeepScanning);
    assert_eq!(judge(ScanEvent::Unrelated), ScanVerdict::KeepScanning);
    assert_eq!(judge(ScanEvent::StreamEnded), ScanVerdict::GiveUp(ScanError::StreamEnded));
    assert_eq!(judge(ScanEvent::WindowElapsed), ScanVerdict::GiveUp(ScanError::NotFound));
}

#[test]
fn success_is_two_hundred_something() {
    for status in 100..1000u16 {
        let code = reqwest::StatusCode::from_u16(status).unwrap();
        assert_eq!(status_is_success(status), code.is_success());
    }
}

/// Run a scan over outcomes; how it ended, and how often the adapter was told to stop.
fn scan(outcomes: Vec<ScanOutcome>) -> (ScanAction, usize) {
    let mut scan = Scan::new("RustQuiz".to_string());
    let mut stops = 0;
    for outcome in &outcomes {
        if scan.action() == ScanAction::Stop && !matches!(outcome, ScanOutcome::Event(_)) {
            stops += 1;
        }
        scan.handle(outcome);
    }
    (scan.action(), stops)
}

fn seen(name: &str) -> ScanOutcome {
    ScanOutcome::Event(ScanEvent::Seen(Some(name.to_string())))
}

#[test]
fn scan_runs_through_its_steps() {
    let mut scan = Scan::new("RustQuiz".to_string());
    assert_eq!(scan.action(), ScanAction::Start);
    scan.handle(&ScanOutcome::Done);
    assert_eq!(scan.action(), ScanAction::Subscribe);
    scan.handle(&ScanOutcome::Done);
    assert_eq!(scan.action(), ScanAction::AwaitEvent);
    scan.handle(&ScanOutcome::Event(ScanEvent::Unrelated));
    scan.handle(&seen("Lamp"));
    assert_eq!(scan.action(), ScanAction::AwaitEvent);
    scan.handle(&seen("RustQuiz"));
    assert_eq!(scan.action(), ScanAction::Stop);
    scan.handle(&ScanOutcome::Done);
    assert_eq!(scan.action(), ScanAction::Finish(Ok(())));
    scan.handle(&seen("Lamp"));
    assert_eq!(scan.action(), ScanAction::Finish(Ok(())));
}

#[test]
fn scan_is_stopped_once_if_it_got_that_far() {
    let came = |event: ScanEvent| ScanOutcome::Event(event);
    let ended = |error: ScanError| ScanAction::Finish(Err(error));
    assert_eq!(scan(vec![ScanOutcome::Failed]), (ended(ScanError::StartFailed), 0));
    assert_eq!(
        scan(vec![ScanOutcome::Done, ScanOutcome::Failed]),
        (ended(ScanError::NoEvents), 0)
    );
    assert_eq!(
        scan(vec![
            ScanOutcome::Done,
            ScanOutcome::Done,
            came(ScanEvent::StreamEnded),
            ScanOutcome::Failed,
            ScanOutcome::Done,
        ]),
        (ended(ScanError::StreamEnded), 1)
    );
    assert_eq!(
        scan(vec![
            ScanOutcome::Done,
            ScanOutcome::Done,
            seen("Lamp"),
            came(ScanEvent::WindowElapsed),
            ScanOutcome::Done,
            ScanOutcome::Done,
        ]),
        (ended(ScanError::NotFound), 1)
    );
    assert_eq!(
        scan(vec![
            ScanOutcome::Done,
            ScanOutcome::Done,
            seen("RustQuiz"),
            seen("RustQuiz"),
            ScanOutcome::Done,
        ]),
        (ScanAction::Finish(Ok(())), 1)
    );
}

#[test]
fn session_errors_have_their_texts() {
    let text = |error: SessionError| error.message("\"RustQuiz\"");
    assert_eq!(text(SessionError::Scan(ScanError::StartFailed)), "start_scan");
    assert_eq!(text(SessionError::Scan(ScanError::NoEvents)), "subscribe to events");
    assert_eq!(text(SessionError::Scan(ScanError::StreamEnded)), "event stream ended unexpectedly");
    assert_eq!(text(SessionError::ConnectFailed), "BLE connect");
    assert_eq!(text(SessionError::DiscoverFailed), "discover services");
    assert_eq!(text(SessionError::VotesCharMissing), "votes characteristic not found");
    assert_eq!(text(SessionError::ControlCharMissing), "control characteristic not found");
    assert_eq!(text(SessionError::Disconnected), "peripheral disconnected");
    assert_eq!(text(SessionError::WriteVotesFailed), "write votes characteristic");
    assert_eq!(text(SessionError::WriteBlinkStartFailed), "write blink start");
    assert_eq!(text(SessionError::WriteBlinkStopFailed), "write blink stop");
    assert_eq!(
        text(SessionError::ConnectTimedOut),
        format!("BLE connect timed out after {}s", CONNECT_TIMEOUT_SECS)
    );
}

#[test]
fn missing_display_is_called_by_its_name() {
    let expected = "device \"RustQuiz\" not found within 30 seconds";
    let quoted = format!("{:?}", "RustQuiz");
    assert_eq!(not_found_message(&quoted), expected);
    assert_eq!(SessionError::Scan(ScanError::NotFound).message(&quoted), expected);
    assert_eq!(
        not_found_message("\"a\""),
        format!("device {:?} not found within {} seconds", "a", SCAN_WINDOW_SECS)
    );
}
