use quiz_display::display::{BusOp, QuizDisplay};
use quiz_display::firmware::{Command, Event, Firmware, Handles, Link, State, BLINK_PHASE_MS};

const HANDLES: Handles = Handles { votes: 12, control: 14 };

fn serving() -> Firmware {
    let mut firmware = Firmware::new(HANDLES, QuizDisplay::new());
    for _ in 0..3 {
        assert!(!firmware.handle(Event::StepDone));
    }
    firmware
}

fn write(firmware: &mut Firmware, handle: u16, data: &[u8]) -> Vec<BusOp> {
    assert!(firmware.handle(Event::Write { handle, data }));
    firmware.take_pending()
}

fn chart(votes: [u8; 4]) -> Vec<BusOp> {
    let mut display = QuizDisplay::new();
    display.show_bars(votes);
    display.take_pending()
}

fn blink(votes: [u8; 4], option: usize, phase: u8) -> Vec<BusOp> {
    let mut display = QuizDisplay::new();
    display.show_with_blink(votes, option, phase);
    display.take_pending()
}

#[test]
fn connection_is_set_up_step_by_step() {
    let mut firmware = Firmware::new(HANDLES, QuizDisplay::new());
    assert_eq!(
        firmware.state(),
        State { link: Link::Advertising, votes: [0; 4], blink_target: None, blink_phase: 0 }
    );
    assert_eq!(firmware.command(), Command::Advertise);
    firmware.handle(Event::StepDone);
    assert_eq!(firmware.command(), Command::Accept);
    firmware.handle(Event::StepDone);
    assert_eq!(firmware.command(), Command::AttachServer);
    firmware.handle(Event::StepDone);
    assert_eq!(firmware.command(), Command::AwaitEvent);
    assert!(firmware.take_pending().is_empty());
}

#[test]
fn any_failed_step_advertises_again() {
    for done in 0..3 {
        let mut firmware = Firmware::new(HANDLES, QuizDisplay::new());
        for _ in 0..done {
            firmware.handle(Event::StepDone);
        }
        assert!(!firmware.handle(Event::StepFailed));
        assert_eq!(firmware.command(), Command::Advertise);
    }
}

#[test]
fn power_on_operations_come_first() {
    let mut display = QuizDisplay::new();
    display.init();
    display.startup_animation();
    let mut firmware = Firmware::new(HANDLES, display);
    assert_eq!(firmware.take_pending().len(), 39 + 201);
}

#[test]
fn votes_are_shown() {
    let mut firmware = serving();
    assert_eq!(write(&mut firmware, 12, &[70, 30, 20, 10]), chart([70, 30, 20, 10]));
    assert_eq!(firmware.state().votes, [70, 30, 20, 10]);
}

#[test]
fn bad_writes_are_acknowledged_and_ignored() {
    let mut firmware = serving();
    write(&mut firmware, 12, &[70, 30, 20, 10]);
    let before = firmware.state();
    let bad: [(u16, &[u8]); 8] = [
        (12, &[1, 2, 3]),
        (12, &[1, 2, 3, 4, 5]),
        (12, &[]),
        (14, &[0]),
        (14, &[0, 0, 0]),
        (14, &[1, 4]),
        (14, &[3, 0]),
        (13, &[1, 2, 3, 4]),
    ];
    for (handle, data) in bad {
        assert!(write(&mut firmware, handle, data).is_empty());
        assert_eq!(firmware.state(), before);
    }
}

#[test]
fn other_events() {
    let mut firmware = serving();
    let before = firmware.state();
    assert!(firmware.handle(Event::OtherGatt));
    assert!(!firmware.handle(Event::OtherConnection));
    assert!(!firmware.handle(Event::BlinkTimeout));
    assert!(!firmware.handle(Event::StepDone));
    assert!(!firmware.handle(Event::StepFailed));
    assert_eq!(firmware.state(), before);
    assert!(firmware.take_pending().is_empty());
}

#[test]
fn writes_outside_a_connection_are_not_served() {
    let mut firmware = Firmware::new(HANDLES, QuizDisplay::new());
    assert!(!firmware.handle(Event::Write { handle: 12, data: &[1, 2, 3, 4] }));
    assert_eq!(firmware.state().votes, [0; 4]);
    assert!(firmware.take_pending().is_empty());
}

#[test]
fn reveal_blinks_until_stopped() {
    let votes = [70, 30, 20, 10];
    let mut firmware = serving();
    write(&mut firmware, 12, &votes);
    assert_eq!(write(&mut firmware, 14, &[1, 2]), blink(votes, 2, 1));
    for round in 0..10 {
        assert_eq!(firmware.command(), Command::AwaitEventFor(BLINK_PHASE_MS));
        assert!(!firmware.handle(Event::BlinkTimeout));
        let expected = if round % 2 == 0 { chart(votes) } else { blink(votes, 2, 1) };
        assert_eq!(firmware.take_pending(), expected);
    }
    assert_eq!(write(&mut firmware, 14, &[2, 9]), chart(votes));
    assert_eq!(firmware.command(), Command::AwaitEvent);
    assert_eq!(firmware.state().votes, votes);
}

#[test]
fn blink_period_is_one_second() {
    assert_eq!(2 * BLINK_PHASE_MS, 1000);
}

#[test]
fn votes_keep_the_blink_running() {
    let mut firmware = serving();
    write(&mut firmware, 14, &[1, 3]);
    assert_eq!(write(&mut firmware, 12, &[1, 2, 3, 94]), blink([1, 2, 3, 94], 3, 1));
    firmware.handle(Event::BlinkTimeout);
    firmware.take_pending();
    assert_eq!(write(&mut firmware, 12, &[5, 6, 7, 80]), blink([5, 6, 7, 80], 3, 0));
    assert_eq!(firmware.state().blink_target, Some(3));
}

#[test]
fn clear_forgets_votes_and_blink() {
    let mut firmware = serving();
    write(&mut firmware, 12, &[70, 30, 20, 10]);
    write(&mut firmware, 14, &[1, 0]);
    let mut display = QuizDisplay::new();
    display.clear();
    assert_eq!(write(&mut firmware, 14, &[0, 0]), display.take_pending());
    assert_eq!(firmware.state().votes, [0; 4]);
    assert_eq!(firmware.state().blink_target, None);
}

#[test]
fn votes_outlive_a_connection_and_a_blink_does_not() {
    let mut firmware = serving();
    write(&mut firmware, 12, &[70, 30, 20, 10]);
    write(&mut firmware, 14, &[1, 0]);
    assert!(!firmware.handle(Event::Disconnected));
    assert_eq!(firmware.command(), Command::Advertise);
    for _ in 0..3 {
        firmware.handle(Event::StepDone);
    }
    assert!(firmware.take_pending().is_empty());
    assert_eq!(
        firmware.state(),
        State {
            link: Link::Serving,
            votes: [70, 30, 20, 10],
            blink_target: None,
            blink_phase: 0,
        }
    );
    assert_eq!(write(&mut firmware, 14, &[2, 0]), chart([70, 30, 20, 10]));
}
