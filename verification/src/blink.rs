//! The diagnostic image: blink an LED and keep the bootloader's watchdog fed.
use vstd::prelude::*;

verus! {

/// Watchdog timer of the nRF52840.
pub const WDT_BASE: u32 = 0x4001_0000;

/// Register whose lowest bit says whether the watchdog runs.
pub const WDT_RUNSTATUS: u32 = 0x4001_0400;

/// Register whose lowest eight bits say which reload registers are due.
pub const WDT_REQSTATUS: u32 = 0x4001_0404;

/// First of the eight reload registers.
pub const WDT_RR_BASE: u32 = 0x4001_0600;

/// The value that a reload register takes for a reload.
pub const WDT_RR_VALUE: u32 = 0x6E52_4635;

/// How long the pin stays low, with the LED on.
pub const LED_LOW_MS: u64 = 3000;

/// How long the pin stays high, with the LED off.
pub const LED_HIGH_MS: u64 = 1000;

/// Whether bit `index` of a register is set.
pub open spec fn bit_set(register: u32, index: u32) -> bool {
    register & (1u32 << index) != 0
}

/// Whether the watchdog runs, by the content of its run status register.
pub fn watchdog_running(run_status: u32) -> (running: bool)
    ensures
        running == bit_set(run_status, 0),
{
    assert(run_status & 1 != 0 <==> run_status & (1u32 << 0u32) != 0) by (bit_vector);
    run_status & 1 != 0
}

/// The write, register and value, that the `i`-th reload register takes by the contents of the run
/// status and request status registers: a reload if the watchdog runs and asks for it.
pub open spec fn watchdog_write(run_status: u32, req_status: u32, i: u32) -> Option<(u32, u32)> {
    if bit_set(run_status, 0) && bit_set(req_status, i) {
        Some(((WDT_RR_BASE + 4 * i) as u32, WDT_RR_VALUE))
    } else {
        None
    }
}

/// The writes, register and value, that feed the watchdog, by the contents of its run status and
/// request status registers. A watchdog that does not run is left alone.
pub fn watchdog_writes(run_status: u32, req_status: u32) -> (writes: [Option<(u32, u32)>; 8])
    ensures
        forall|i: u32|
            i < 8 ==> #[trigger] writes[i as int] == watchdog_write(run_status, req_status, i),
{
    let mut writes: [Option<(u32, u32)>; 8] = [None; 8];
    if !watchdog_running(run_status) {
        return writes;
    }
    let mut i: u32 = 0;
    while i < 8
        invariant
            i <= 8,
            bit_set(run_status, 0),
            forall|j: u32|
                j < i ==> #[trigger] writes[j as int] == watchdog_write(run_status, req_status, j),
            forall|j: int| i <= j < 8 ==> writes[j] is None,
        decreases 8 - i,
    {
        if req_status & (1u32 << i) != 0 {
            writes[i as usize] = Some((WDT_RR_BASE + i * 4, WDT_RR_VALUE));
        }
        i += 1;
    }
    writes
}

/// Feeding is safe at any time: a watchdog that does not run is not written to, and neither is one
/// that asks for nothing.
pub proof fn law_idle_watchdog_untouched(run_status: u32, req_status: u32, i: u32)
    requires
        i < 8,
        !bit_set(run_status, 0) || req_status & 0xFF == 0,
    ensures
        watchdog_write(run_status, req_status, i) is None,
{
    if req_status & 0xFF == 0 {
        assert(req_status & (1u32 << i) == 0) by (bit_vector)
            requires
                i < 8,
                req_status & 0xFF == 0,
        ;
    }
}

/// Every write goes to a register of its own among the eight reload registers.
pub proof fn law_reloads_distinct(
    run_status: u32,
    req_status: u32,
    i: u32,
    j: u32,
    first: (u32, u32),
    second: (u32, u32),
)
    requires
        i < j < 8,
        watchdog_write(run_status, req_status, i) == Some(first),
        watchdog_write(run_status, req_status, j) == Some(second),
    ensures
        WDT_RR_BASE <= first.0 < second.0 < WDT_RR_BASE + 32,
{
}

/// Level of the LED's pin. The LED is lit while the pin is low.
#[derive(Debug, Clone, Copy, PartialEq, Eq)]
pub enum Level {
    Low,
    High,
}

/// One step of the blink pattern.
#[derive(Debug, Clone, Copy, PartialEq, Eq)]
pub struct LedStep {
    /// Number of the round, which wraps around.
    pub tick: u32,
    /// Level to drive the pin to.
    pub level: Level,
    /// How long to hold it, in milliseconds.
    pub hold_ms: u64,
}

/// The blink pattern: each round three seconds on and one second off.
#[derive(Debug, Clone, Copy, PartialEq, Eq)]
pub struct BlinkPattern {
    /// Number of the current round.
    pub tick: u32,
    /// Level that comes next.
    pub level: Level,
}

impl BlinkPattern {
    /// The start of the first round.
    pub fn new() -> (pattern: Self)
        ensures
            pattern == (BlinkPattern { tick: 0, level: Level::Low }),
    {
        BlinkPattern { tick: 0, level: Level::Low }
    }

    /// The step that comes next.
    pub open spec fn current(self) -> LedStep {
        LedStep {
            tick: self.tick,
            level: self.level,
            hold_ms: if self.level is Low {
                LED_LOW_MS
            } else {
                LED_HIGH_MS
            },
        }
    }

    /// The pattern one step further on.
    pub open spec fn advanced(self) -> BlinkPattern {
        match self.level {
            Level::Low => BlinkPattern { tick: self.tick, level: Level::High },
            Level::High => BlinkPattern {
                tick: if self.tick == u32::MAX {
                    0
                } else {
                    (self.tick + 1) as u32
                },
                level: Level::Low,
            },
        }
    }

    /// Go one step further.
    pub fn step(&mut self) -> (step: LedStep)
        ensures
            step == old(self).current(),
            *final(self) == old(self).advanced(),
    {
        let tick: u32 = self.tick;
        match self.level {
            Level::Low => {
                self.level = Level::High;
                LedStep { tick, level: Level::Low, hold_ms: LED_LOW_MS }
            },
            Level::High => {
                self.level = Level::Low;
                self.tick = tick.wrapping_add(1);
                LedStep { tick, level: Level::High, hold_ms: LED_HIGH_MS }
            },
        }
    }
}

/// A round is two steps, four seconds long, and counts the rounds up by one.
pub proof fn law_round(pattern: BlinkPattern)
    ensures
        pattern.advanced().advanced().level == pattern.level,
        pattern.advanced().current().level != pattern.current().level,
        pattern.current().hold_ms + pattern.advanced().current().hold_ms == 4000,
        pattern.tick < u32::MAX ==> pattern.advanced().advanced().tick == pattern.tick + 1,
{
}

/// A running watchdog gets what it asks for: the reload value in exactly the requested registers,
/// which lie one after the other from 0x4001_0600.
pub proof fn law_due_reloads_written(run_status: u32, req_status: u32, i: u32)
    requires
        i < 8,
    ensures
        run_status % 2 == 1 && (req_status >> i) % 2 == 1 ==> watchdog_write(
            run_status,
            req_status,
            i,
        ) == Some(((0x4001_0600 + 4 * i) as u32, 0x6E52_4635u32)),
        run_status % 2 == 0 || (req_status >> i) % 2 == 0 ==> watchdog_write(
            run_status,
            req_status,
            i,
        ) is None,
{
    assert(run_status % 2 == 1 <==> run_status & (1u32 << 0u32) != 0) by (bit_vector);
    assert((req_status >> i) % 2 == 1 <==> req_status & (1u32 << i) != 0) by (bit_vector)
        requires
            i < 8,
    ;
}

/// In every round the pin is low for three seconds and then high for one; the steps of a round
/// carry its number, and the rounds are counted from 0 after the highest.
pub proof fn law_steps_of_a_round(pattern: BlinkPattern)
    requires
        pattern.level is Low,
    ensures
        ({
            let second = pattern.advanced();
            let next = second.advanced();
            &&& pattern.current().level is Low
            &&& pattern.current().hold_ms == 3000
            &&& pattern.current().tick == pattern.tick
            &&& second.current().level is High
            &&& second.current().hold_ms == 1000
            &&& second.current().tick == pattern.tick
            &&& next.current().level is Low
            &&& next.tick as int == (pattern.tick + 1) % 0x1_0000_0000
        }),
{
}

} // verus!
