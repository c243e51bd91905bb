//! What the MAX7219 chain makes of the bus operations, and what the audience then sees.
#[allow(unused_imports)]
use crate::display;
use crate::display::BusOp;
use vstd::prelude::*;

verus! {

/// Four chained modules, as the wires see them.
pub struct Chain {
    /// Chip select is low.
    pub selected: bool,
    /// The eight bytes in the modules' shift registers, the one furthest from DIN first.
    pub shifted: Seq<u8>,
    /// The sixteen registers of each module, the module closest to DIN first.
    pub registers: Seq<Seq<u8>>,
    /// Milliseconds that went by in pauses.
    pub paused_ms: nat,
}

impl Chain {
    /// Each of the four modules has a 16-bit shift register and sixteen 8-bit registers.
    pub open spec fn wf(self) -> bool {
        &&& self.shifted.len() == 8
        &&& self.registers.len() == 4
        &&& forall|module: int| 0 <= module < 4 ==> #[trigger] self.registers[module].len() == 16
    }

    /// The register number in a module's shift register: the low half of its first byte.
    pub open spec fn address(self, module: int) -> int {
        self.shifted[2 * (3 - module)] as int % 16
    }

    /// The value in a module's shift register: its second byte.
    pub open spec fn value(self, module: int) -> u8 {
        self.shifted[2 * (3 - module) + 1]
    }

    /// The chain after one bus operation. Bytes push those before them down the chain; the rising
    /// edge of chip select makes every module latch what its shift register holds.
    pub open spec fn step(self, op: BusOp) -> Chain {
        match op {
            BusOp::CsLow => Chain { selected: true, ..self },
            BusOp::Write(bytes) => Chain {
                shifted: (self.shifted + bytes@).skip(bytes@.len() as int),
                ..self
            },
            BusOp::CsHigh => Chain {
                selected: false,
                registers: if self.selected {
                    Seq::new(
                        4,
                        |module: int|
                            self.registers[module].update(self.address(module), self.value(module)),
                    )
                } else {
                    self.registers
                },
                ..self
            },
            BusOp::DelayMs(ms) => Chain { paused_ms: self.paused_ms + ms as nat, ..self },
        }
    }

    /// The chain after a run of bus operations.
    pub open spec fn run(self, ops: Seq<BusOp>) -> Chain
        decreases ops.len(),
    {
        if ops.len() == 0 {
            self
        } else {
            self.run(ops.drop_last()).step(ops.last())
        }
    }

    /// Whether the LED at `module`, `row` (1 = top) and `col` (0 = left) is lit: the modules are
    /// configured, and the row register asks for it.
    pub open spec fn led(self, module: int, row: u8, col: u8) -> bool {
        self.configured() && display::col_lit(self.registers[module][row as int], col)
    }

    /// Whether the row registers of all modules hold the topmost `rows` rows of the picture of
    /// these bar bitmaps.
    pub open spec fn shows_rows(self, bar_lit: [u8; 4], rows: nat) -> bool {
        forall|module: int, row: u8|
            0 <= module < 4 && 1 <= row <= rows ==> #[trigger] self.registers[module][row as int]
                == display::row_byte(bar_lit[module], module, row)
    }

    /// Whether the row registers of all modules hold the picture of these bar bitmaps, which is
    /// what the modules show once they are configured.
    pub open spec fn shows(self, bar_lit: [u8; 4]) -> bool {
        self.shows_rows(bar_lit, 8)
    }

    /// Whether the two chains agree in every register that holds no row of the picture.
    pub open spec fn same_settings(self, other: Chain) -> bool {
        forall|module: int, register: int|
            0 <= module < 4 && 0 <= register < 16 && !(1 <= register <= 8)
                ==> #[trigger] self.registers[module][register]
                == other.registers[module][register]
    }

    /// Whether every module has left shutdown and display test, and shows raw pixels in all eight
    /// rows at brightness 7 of 15.
    pub open spec fn configured(self) -> bool {
        forall|module: int|
            #![trigger self.registers[module]]
            0 <= module < 4 ==> {
                &&& self.registers[module][display::REG_DISPLAY_TEST as int] == 0
                &&& self.registers[module][display::REG_DECODE_MODE as int] == 0
                &&& self.registers[module][display::REG_SCAN_LIMIT as int] == 7
                &&& self.registers[module][display::REG_INTENSITY as int] == 7
                &&& self.registers[module][display::REG_SHUTDOWN as int] == 1
            }
    }
}

/// Running two batches one after the other is running them as one.
pub proof fn law_run_in_batches(chain: Chain, first: Seq<BusOp>, second: Seq<BusOp>)
    ensures
        chain.run(first + second) == chain.run(first).run(second),
    decreases second.len(),
{
    if second.len() == 0 {
        assert(first + second =~= first);
    } else {
        law_run_in_batches(chain, first, second.drop_last());
        assert((first + second).drop_last() =~= first + second.drop_last());
        assert((first + second).last() == second.last());
    }
}

/// A transaction delivers `data[i]` to the named register of the `i`-th module from DIN and
/// changes no other register, whatever the shift registers held before. Of the register byte only
/// the low half counts.
pub proof fn law_transaction_delivers(chain: Chain, data: [u8; 4], register: u8)
    requires
        chain.wf(),
    ensures
        chain.run(display::transaction(data, register)).wf(),
        !chain.run(display::transaction(data, register)).selected,
        chain.run(display::transaction(data, register)).paused_ms == chain.paused_ms,
        forall|module: int|
            0 <= module < 4 ==> #[trigger] chain.run(
                display::transaction(data, register),
            ).registers[module] == chain.registers[module].update(
                register as int % 16,
                data[module],
            ),
{
    let ops = display::transaction(data, register);
    let frame = display::frame(data, register);
    reveal_with_fuel(Chain::run, 4);
    assert(ops.drop_last().drop_last() =~= seq![BusOp::CsLow]);
    assert(ops.drop_last() =~= seq![BusOp::CsLow, BusOp::Write(frame)]);
    assert(ops.drop_last().drop_last().drop_last() =~= seq![]);
    let full = chain.step(BusOp::CsLow).step(BusOp::Write(frame));
    assert(chain.run(ops) == full.step(BusOp::CsHigh));
    assert(full.shifted =~= frame@);
}

/// The topmost rows of a picture arrive in the row registers and touch no others.
proof fn lemma_rows_arrive(chain: Chain, bar_lit: [u8; 4], rows: nat)
    requires
        chain.wf(),
        rows <= 8,
    ensures
        chain.run(display::rows_ops(bar_lit, rows)).wf(),
        rows > 0 ==> !chain.run(display::rows_ops(bar_lit, rows)).selected,
        chain.run(display::rows_ops(bar_lit, rows)).paused_ms == chain.paused_ms,
        chain.run(display::rows_ops(bar_lit, rows)).same_settings(chain),
        chain.run(display::rows_ops(bar_lit, rows)).shows_rows(bar_lit, rows),
    decreases rows,
{
    if rows > 0 {
        let above = (rows - 1) as nat;
        let row = rows as u8;
        lemma_rows_arrive(chain, bar_lit, above);
        let before = chain.run(display::rows_ops(bar_lit, above));
        let data = display::row_bytes(bar_lit, row);
        law_run_in_batches(
            chain,
            display::rows_ops(bar_lit, above),
            display::transaction(data, row),
        );
        law_transaction_delivers(before, data, row);
        let after = before.run(display::transaction(data, row));
        assert forall|module: int, r: u8|
            0 <= module < 4 && 1 <= r <= rows implies #[trigger] after.registers[module][r as int]
            == display::row_byte(bar_lit[module], module, r) by {
            if r == row {
                assert(data[module] == display::row_byte(bar_lit[module], module, row)) by {
                    assert(module == 0 || module == 1 || module == 2 || module == 3);
                }
            } else {
                assert(before.registers[module][r as int] == display::row_byte(
                    bar_lit[module],
                    module,
                    r,
                ));
            }
        }
    }
}

/// Rendering shows the picture on all modules, whatever was there before, and changes nothing but
/// the rows.
pub proof fn law_render_shows(chain: Chain, bar_lit: [u8; 4])
    requires
        chain.wf(),
    ensures
        chain.run(display::render_ops(bar_lit)).wf(),
        chain.run(display::render_ops(bar_lit)).shows(bar_lit),
        chain.run(display::render_ops(bar_lit)).same_settings(chain),
        !chain.run(display::render_ops(bar_lit)).selected,
        chain.run(display::render_ops(bar_lit)).paused_ms == chain.paused_ms,
{
    lemma_rows_arrive(chain, bar_lit, 8);
}

/// Where configured modules show a picture, an LED is lit exactly if the bar or the letter, but not
/// both, covers it: the letter is cut out of the bar.
pub proof fn law_letter_cut_out(chain: Chain, bar_lit: [u8; 4], module: int, row: u8, col: u8)
    requires
        chain.configured(),
        chain.shows(bar_lit),
        0 <= module < 4,
        1 <= row <= 8,
        col < 8,
    ensures
        chain.led(module, row, col) == (display::row_lit(bar_lit[module], row) != display::col_lit(
            display::LETTERS[display::OPTION_FOR_MODULE[module] as int][row - 1],
            col,
        )),
{
    let letter = display::LETTERS[display::OPTION_FOR_MODULE[module] as int][row - 1];
    let shift = (7 - col) as u8;
    assert(chain.registers[module][row as int] == display::row_byte(bar_lit[module], module, row));
    assert(((0xFFu8 ^ letter) & (1u8 << shift) != 0) == (letter & (1u8 << shift) == 0))
        by (bit_vector)
        requires
            shift < 8,
    ;
    assert(0u8 ^ letter == letter) by (bit_vector);
}

/// Initialization leaves every module configured and showing its letter without a bar.
pub proof fn law_init_configures(chain: Chain)
    requires
        chain.wf(),
    ensures
        chain.run(display::init_ops()).wf(),
        chain.run(display::init_ops()).configured(),
        chain.run(display::init_ops()).shows([0, 0, 0, 0]),
        !chain.run(display::init_ops()).selected,
{
    let zero = [0u8, 0u8, 0u8, 0u8];
    let seven = [7u8, 7u8, 7u8, 7u8];
    let one = [1u8, 1u8, 1u8, 1u8];
    let ops1 = display::command_ops(display::REG_DISPLAY_TEST, 0);
    let ops2 = display::command_ops(display::REG_DECODE_MODE, 0);
    let ops3 = display::command_ops(display::REG_SCAN_LIMIT, 7);
    let ops4 = display::command_ops(display::REG_INTENSITY, 7);
    let ops5 = display::command_ops(display::REG_SHUTDOWN, 1);
    let ops6 = display::render_ops(zero);
    law_run_in_batches(chain, ops1, ops2);
    law_run_in_batches(chain, ops1 + ops2, ops3);
    law_run_in_batches(chain, ops1 + ops2 + ops3, ops4);
    law_run_in_batches(chain, ops1 + ops2 + ops3 + ops4, ops5);
    law_run_in_batches(chain, ops1 + ops2 + ops3 + ops4 + ops5, ops6);
    let c1 = chain.run(ops1);
    let c2 = c1.run(ops2);
    let c3 = c2.run(ops3);
    let c4 = c3.run(ops4);
    let c5 = c4.run(ops5);
    law_transaction_delivers(chain, zero, display::REG_DISPLAY_TEST);
    law_transaction_delivers(c1, zero, display::REG_DECODE_MODE);
    law_transaction_delivers(c2, seven, display::REG_SCAN_LIMIT);
    law_transaction_delivers(c3, seven, display::REG_INTENSITY);
    law_transaction_delivers(c4, one, display::REG_SHUTDOWN);
    law_render_shows(c5, zero);
    assert(c5.configured());
    assert(c5.run(ops6) == chain.run(display::init_ops()));
}

/// Modules that agree in their settings are configured alike.
pub proof fn law_settings_keep_configuration(chain: Chain, before: Chain)
    requires
        chain.same_settings(before),
        before.configured(),
    ensures
        chain.configured(),
{
    assert forall|module: int| #![trigger chain.registers[module]] 0 <= module < 4 implies {
        &&& chain.registers[module][display::REG_DISPLAY_TEST as int] == 0
        &&& chain.registers[module][display::REG_DECODE_MODE as int] == 0
        &&& chain.registers[module][display::REG_SCAN_LIMIT as int] == 7
        &&& chain.registers[module][display::REG_INTENSITY as int] == 7
        &&& chain.registers[module][display::REG_SHUTDOWN as int] == 1
    } by {
        assert(before.registers[module] == before.registers[module]);
    }
}

/// Showing the bar chart on configured modules lights, on the module of each option, the rows from
/// the bottom up to the height of its vote, with the letter cut out.
pub proof fn law_bar_chart(chain: Chain, pct: [u8; 4], module: int, row: u8, col: u8)
    requires
        chain.wf(),
        chain.configured(),
        0 <= module < 4,
        1 <= row <= 8,
        col < 8,
    ensures
        ({
            let option = display::OPTION_FOR_MODULE[module] as int;
            let in_bar = row + display::bar_height(pct[option]) > 8;
            let in_letter = display::col_lit(display::LETTERS[option][row - 1], col);
            chain.run(display::render_ops(display::bars(pct))).led(module, row, col) == (in_bar
                != in_letter)
        }),
{
    law_render_shows(chain, display::bars(pct));
    law_settings_keep_configuration(
        chain.run(display::render_ops(display::bars(pct))),
        chain,
    );
    law_letter_cut_out(
        chain.run(display::render_ops(display::bars(pct))),
        display::bars(pct),
        module,
        row,
        col,
    );
    display::law_bar_from_bottom(pct[display::OPTION_FOR_MODULE[module] as int], row);
    assert(module == 0 || module == 1 || module == 2 || module == 3);
}

/// In odd phases of the blink animation the module of the blinking option, once configured, shows
/// its bar with lit and dark rows swapped; all else is the bar chart.
pub proof fn law_blink_frame(
    chain: Chain,
    pct: [u8; 4],
    blink_option: usize,
    phase: u8,
    module: int,
    row: u8,
    col: u8,
)
    requires
        chain.wf(),
        chain.configured(),
        0 <= module < 4,
        1 <= row <= 8,
        col < 8,
    ensures
        ({
            let option = display::OPTION_FOR_MODULE[module];
            let in_bar = row + display::bar_height(pct[option as int]) > 8;
            let swapped = option == blink_option && phase % 2 == 1;
            let in_letter = display::col_lit(display::LETTERS[option as int][row - 1], col);
            chain.run(display::render_ops(display::blink_bars(pct, blink_option, phase))).led(
                module,
                row,
                col,
            ) == ((in_bar != swapped) != in_letter)
        }),
{
    let picture = display::blink_bars(pct, blink_option, phase);
    law_render_shows(chain, picture);
    law_settings_keep_configuration(chain.run(display::render_ops(picture)), chain);
    law_letter_cut_out(chain.run(display::render_ops(picture)), picture, module, row, col);
    display::law_bar_from_bottom(pct[display::OPTION_FOR_MODULE[module] as int], row);
    if phase % 2 == 1 {
        display::law_blink_inverts(pct, blink_option, phase, module, row);
    } else {
        display::law_blink_rests(pct, blink_option, phase);
    }
    assert(module == 0 || module == 1 || module == 2 || module == 3);
}

/// After each frame of a sweep the modules passed so far stand at `inside` and the others at
/// `outside`; the sweep takes one pause per frame.
pub proof fn law_sweep_progress(chain: Chain, frames: nat, inside: u8, outside: u8)
    requires
        chain.wf(),
        1 <= frames <= 4,
    ensures
        chain.run(display::sweep_ops(frames, inside, outside)).wf(),
        !chain.run(display::sweep_ops(frames, inside, outside)).selected,
        chain.run(display::sweep_ops(frames, inside, outside)).shows(
            display::split_bars(frames as int, inside, outside),
        ),
        chain.run(display::sweep_ops(frames, inside, outside)).same_settings(chain),
        chain.run(display::sweep_ops(frames, inside, outside)).paused_ms == chain.paused_ms + frames
            * display::SWEEP_STEP_MS,
    decreases frames,
{
    let earlier = (frames - 1) as nat;
    let picture = display::split_bars(frames as int, inside, outside);
    let ops = display::sweep_ops(earlier, inside, outside);
    let pause = seq![BusOp::DelayMs(display::SWEEP_STEP_MS)];
    if earlier > 0 {
        law_sweep_progress(chain, earlier, inside, outside);
    }
    let before = chain.run(ops);
    law_run_in_batches(chain, ops, display::render_ops(picture));
    law_run_in_batches(chain, ops + display::render_ops(picture), pause);
    law_render_shows(before, picture);
    let drawn = before.run(display::render_ops(picture));
    assert(pause.drop_last() =~= seq![]);
    assert(drawn.run(pause) == drawn.step(pause[0])) by {
        reveal_with_fuel(Chain::run, 2);
    }
}

/// The startup animation takes a second and a half, ends with the letters without bars, and
/// changes no setting.
pub proof fn law_startup_ends_clear(chain: Chain)
    requires
        chain.wf(),
    ensures
        chain.run(display::startup_ops()).wf(),
        chain.run(display::startup_ops()).shows([0, 0, 0, 0]),
        chain.run(display::startup_ops()).same_settings(chain),
        !chain.run(display::startup_ops()).selected,
        chain.run(display::startup_ops()).paused_ms == chain.paused_ms + 1500,
{
    let fill = display::sweep_ops(4, 0xFF, 0);
    let hold = seq![BusOp::DelayMs(display::SWEEP_HOLD_MS)];
    let drain = display::sweep_ops(4, 0, 0xFF);
    law_run_in_batches(chain, fill, hold);
    law_run_in_batches(chain, fill + hold, drain);
    law_sweep_progress(chain, 4, 0xFF, 0);
    let full = chain.run(fill);
    assert(hold.drop_last() =~= seq![]);
    assert(full.run(hold) == full.step(hold[0])) by {
        reveal_with_fuel(Chain::run, 2);
    }
    law_sweep_progress(full.run(hold), 4, 0, 0xFF);
    assert(display::split_bars(4, 0, 0xFF) =~= [0u8, 0u8, 0u8, 0u8]);
}

/// A command reaches every module of the chain alike and changes nothing else.
pub proof fn law_command_reaches_all(chain: Chain, register: u8, value: u8, module: int)
    requires
        chain.wf(),
        0 <= module < 4,
    ensures
        chain.run(display::command_ops(register, value)).registers[module]
            == chain.registers[module].update(register as int % 16, value),
{
    law_transaction_delivers(chain, [value, value, value, value], register);
    assert(module == 0 || module == 1 || module == 2 || module == 3);
}

/// The startup animation fills the bars up: when `swept` frames are done, 150 ms each, the first
/// `swept` modules stand at a full bar and the others at none.
pub proof fn law_startup_fills(chain: Chain, swept: nat, bar_lit: [u8; 4])
    requires
        chain.wf(),
        1 <= swept <= 4,
        forall|module: int|
            0 <= module < 4 ==> #[trigger] bar_lit[module] == if module < swept {
                0xFFu8
            } else {
                0u8
            },
    ensures
        chain.run(display::startup_ops().take(25 * swept as int)).wf(),
        chain.run(display::startup_ops().take(25 * swept as int)).shows(bar_lit),
        chain.run(display::startup_ops().take(25 * swept as int)).same_settings(chain),
        chain.run(display::startup_ops().take(25 * swept as int)).paused_ms == chain.paused_ms + 150
            * swept,
{
    let fill = display::sweep_ops(4, 0xFF, 0);
    display::lemma_sweep_prefix(swept, 4, 0xFF, 0);
    assert(display::startup_ops().take(25 * swept as int) =~= fill.take(25 * swept as int));
    law_sweep_progress(chain, swept, 0xFF, 0);
    assert(bar_lit =~= display::split_bars(swept as int, 0xFF, 0));
}

/// Then the bars stand for 300 ms and drain in the same order: when `swept` more frames are done,
/// the first `swept` modules stand at no bar and the others at a full one.
pub proof fn law_startup_drains(chain: Chain, swept: nat, bar_lit: [u8; 4])
    requires
        chain.wf(),
        swept <= 4,
        forall|module: int|
            0 <= module < 4 ==> #[trigger] bar_lit[module] == if module < swept {
                0u8
            } else {
                0xFFu8
            },
    ensures
        display::startup_ops().len() == 201,
        chain.run(display::startup_ops().take(101 + 25 * swept as int)).wf(),
        chain.run(display::startup_ops().take(101 + 25 * swept as int)).shows(bar_lit),
        chain.run(display::startup_ops().take(101 + 25 * swept as int)).same_settings(chain),
        chain.run(display::startup_ops().take(101 + 25 * swept as int)).paused_ms == chain.paused_ms
            + 900 + 150 * swept,
{
    let ops = display::startup_ops();
    let fill = display::sweep_ops(4, 0xFF, 0);
    let hold = seq![BusOp::DelayMs(display::SWEEP_HOLD_MS)];
    let drain = display::sweep_ops(4, 0, 0xFF);
    let part = display::sweep_ops(swept, 0, 0xFF);
    display::lemma_sweep_prefix(4, 4, 0xFF, 0);
    display::lemma_sweep_prefix(swept, 4, 0, 0xFF);
    assert(ops.take(101 + 25 * swept as int) =~= fill + hold + part) by {
        assert(part == drain.take(25 * swept as int));
    }
    law_run_in_batches(chain, fill, hold);
    law_run_in_batches(chain, fill + hold, part);
    law_sweep_progress(chain, 4, 0xFF, 0);
    let full = chain.run(fill);
    assert(hold.drop_last() =~= seq![]);
    assert(full.run(hold) == full.step(hold[0])) by {
        reveal_with_fuel(Chain::run, 2);
    }
    if swept == 0 {
        assert(full.run(hold).run(part) == full.run(hold));
        assert(bar_lit =~= display::split_bars(4, 0xFF, 0));
    } else {
        law_sweep_progress(full.run(hold), swept, 0, 0xFF);
        assert(bar_lit =~= display::split_bars(swept as int, 0, 0xFF));
    }
}

/// The startup animation on the LEDs: while the bars fill up, a module that has been swept is lit
/// all over but for its letter, and one that has not shows its letter alone.
pub proof fn law_startup_on_leds(chain: Chain, swept: nat, module: int, row: u8, col: u8)
    requires
        chain.wf(),
        chain.configured(),
        1 <= swept <= 4,
        0 <= module < 4,
        1 <= row <= 8,
        col < 8,
    ensures
        ({
            let option = display::OPTION_FOR_MODULE[module] as int;
            let in_letter = display::col_lit(display::LETTERS[option][row - 1], col);
            chain.run(display::startup_ops().take(25 * swept as int)).led(module, row, col) == ((
            module < swept) != in_letter)
        }),
{
    let bar_lit = [
        0xFFu8,
        if swept > 1 {
            0xFFu8
        } else {
            0u8
        },
        if swept > 2 {
            0xFFu8
        } else {
            0u8
        },
        if swept > 3 {
            0xFFu8
        } else {
            0u8
        },
    ];
    let shown = chain.run(display::startup_ops().take(25 * swept as int));
    law_startup_fills(chain, swept, bar_lit);
    law_settings_keep_configuration(shown, chain);
    law_letter_cut_out(shown, bar_lit, module, row, col);
    let n = (8 - row) as u8;
    assert(0xFFu8 & (1u8 << n) != 0 && 0u8 & (1u8 << n) == 0) by (bit_vector)
        requires
            n < 8,
    ;
    assert(module == 0 || module == 1 || module == 2 || module == 3);
}

/// After initialization every module has left display test and shutdown, decodes no digits, scans
/// all eight rows at medium brightness, and shows its letter and nothing else.
pub proof fn law_init_registers(chain: Chain, module: int, row: u8)
    requires
        chain.wf(),
        0 <= module < 4,
        1 <= row <= 8,
    ensures
        ({
            let registers = chain.run(display::init_ops()).registers[module];
            &&& registers[0x0F] == 0
            &&& registers[0x0C] == 1
            &&& registers[0x09] == 0
            &&& registers[0x0B] == 7
            &&& registers[0x0A] == 7
            &&& registers[row as int]
                == display::LETTERS[display::OPTION_FOR_MODULE[module] as int][row - 1]
        }),
{
    law_init_configures(chain);
    let after = chain.run(display::init_ops());
    let letter = display::LETTERS[display::OPTION_FOR_MODULE[module] as int][row - 1];
    let n = (8 - row) as u8;
    assert(after.registers[module][row as int] == display::row_byte(0, module, row)) by {
        assert(module == 0 || module == 1 || module == 2 || module == 3);
    }
    assert(0u8 & (1u8 << n) == 0 && 0u8 ^ letter == letter) by (bit_vector);
}

} // verus!
