use quiz_display::blink::{
    watchdog_running, watchdog_writes, BlinkPattern, LedStep, Level, WDT_BASE, WDT_REQSTATUS,
    WDT_RR_BASE, WDT_RUNSTATUS,
};

#[test]
fn watchdog_registers() {
    assert_eq!(WDT_RUNSTATUS, WDT_BASE + 0x400);
    assert_eq!(WDT_REQSTATUS, WDT_BASE + 0x404);
    assert_eq!(WDT_RR_BASE, WDT_BASE + 0x600);
}

#[test]
fn watchdog_runs_by_its_lowest_bit() {
    assert!(watchdog_running(1));
    assert!(watchdog_running(0xFFFF_FFFF));
    assert!(!watchdog_running(0));
    assert!(!watchdog_running(0xFFFF_FFFE));
}

#[test]
fn requested_registers_are_reloaded() {
    assert_eq!(watchdog_writes(1, 0), [None; 8]);
    assert_eq!(watchdog_writes(1, 0xFFFF_FF00), [None; 8]);
    let writes = watchdog_writes(1, 0b1000_0101);
    assert_eq!(writes[0], Some((0x4001_0600, 0x6E52_4635)));
    assert_eq!(writes[1], None);
    assert_eq!(writes[2], Some((0x4001_0608, 0x6E52_4635)));
    assert_eq!(writes[7], Some((0x4001_061C, 0x6E52_4635)));
}

#[test]
fn idle_watchdog_is_not_written_to() {
    assert_eq!(watchdog_writes(0, 0xFF), [None; 8]);
    assert_eq!(watchdog_writes(0xFFFF_FFFE, 0xFF), [None; 8]);
}

#[test]
fn reload_registers_are_distinct() {
    let all: Vec<u32> = watchdog_writes(1, 0xFF).iter().map(|w| w.unwrap().0).collect();
    assert!(all.windows(2).all(|pair| pair[0] + 4 == pair[1]));
}

#[test]
fn led_is_three_seconds_on_and_one_off() {
    let mut pattern = BlinkPattern::new();
    assert_eq!(pattern.step(), LedStep { tick: 0, level: Level::Low, hold_ms: 3000 });
    assert_eq!(pattern.step(), LedStep { tick: 0, level: Level::High, hold_ms: 1000 });
    assert_eq!(pattern.step(), LedStep { tick: 1, level: Level::Low, hold_ms: 3000 });
}

#[test]
fn round_counter_wraps() {
    let mut pattern = BlinkPattern { tick: u32::MAX, level: Level::High };
    assert_eq!(pattern.step().tick, u32::MAX);
    assert_eq!(pattern.step().tick, 0);
}
