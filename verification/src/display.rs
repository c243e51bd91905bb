//! Driver for a chain of four MAX7219 LED matrices that shows a quiz bar chart.
//!
//! Each 8x8 module shows the letter of one quiz option (A/B/C/D) with a full-width vertical bar
//! XOR-ed over it, so the letter becomes negative space inside the bar:
//!
//! ```text
//!   ...##...   0% (A)    ###..###   100% (A)
//!   ..#..#..             ##.##.##
//!   ..#..#..             ##.##.##
//!   ..#..#..             ##.##.##
//!   ..####..             ##....##
//!   ..#..#..             ##.##.##
//!   ..#..#..             ##.##.##
//!   ........             ########
//! ```
//!
//! The driver owns no peripheral. It queues bus operations, which the board code carries out in
//! order; see [`BusOp`].
use vstd::prelude::*;

verus! {

/// Modules in the chain, one per quiz option.
pub const NUM_DEVICES: usize = 4;

// MAX7219 registers. The eight row registers are numbered 1 (top) to 8 (bottom).
pub const REG_DECODE_MODE: u8 = 0x09;

pub const REG_INTENSITY: u8 = 0x0A;

pub const REG_SCAN_LIMIT: u8 = 0x0B;

pub const REG_SHUTDOWN: u8 = 0x0C;

pub const REG_DISPLAY_TEST: u8 = 0x0F;

/// A row of the bar: all eight columns lit.
pub const BAR_FILLED: u8 = 0b1111_1111;

/// Pause after each frame of the startup animation.
pub const SWEEP_STEP_MS: u64 = 150;

/// Pause of the startup animation while all four bars are full.
pub const SWEEP_HOLD_MS: u64 = 300;

/// Quiz option (A=0, B=1, C=2, D=3) shown at each position of the chain. The first module shows D
/// and the last one A, so the audience reads D C B A from left to right.
pub const OPTION_FOR_MODULE: [usize; 4] = [3, 2, 1, 0];

/// Letter glyphs A/B/C/D, one byte per row from the top, the leftmost column in the highest bit.
pub const LETTERS: [[u8; 8]; 4] = [
    [
        0b0001_1000,
        0b0010_0100,
        0b0010_0100,
        0b0010_0100,
        0b0011_1100,
        0b0010_0100,
        0b0010_0100,
        0b0000_0000,
    ],
    [
        0b0011_1000,
        0b0010_0100,
        0b0010_0100,
        0b0011_1000,
        0b0010_0100,
        0b0010_0100,
        0b0011_1000,
        0b0000_0000,
    ],
    [
        0b0001_1100,
        0b0010_0000,
        0b0010_0000,
        0b0010_0000,
        0b0010_0000,
        0b0010_0000,
        0b0001_1100,
        0b0000_0000,
    ],
    [
        0b0011_1000,
        0b0010_0100,
        0b0010_0100,
        0b0010_0100,
        0b0010_0100,
        0b0010_0100,
        0b0011_1000,
        0b0000_0000,
    ],
];

/// One thing for the board to do with the display's wires.
#[derive(Debug, Clone, Copy, PartialEq, Eq)]
pub enum BusOp {
    /// Drive chip select low: the modules start shifting.
    CsLow,
    /// Shift eight bytes out on SPI.
    Write([u8; 8]),
    /// Drive chip select high: every module latches the last two bytes it received.
    CsHigh,
    /// Let this many milliseconds pass.
    DelayMs(u64),
}

// --- what the picture is ---

/// Rows lit, from the bottom, for a vote percentage: eighths of 100, rounded half up. Anything
/// above 100 counts as 100.
pub open spec fn bar_height(pct: u8) -> nat {
    let p: nat = if pct > 100 {
        100
    } else {
        pct as nat
    };
    (p * 8 + 50) / 100
}

/// The number whose lowest `height` bits are ones.
pub open spec fn low_ones(height: nat) -> nat
    decreases height,
{
    if height == 0 {
        0
    } else {
        2 * low_ones((height - 1) as nat) + 1
    }
}

/// Whether a bar bitmap is lit at `row` (1 = top, 8 = bottom).
pub open spec fn row_lit(bitmap: u8, row: u8) -> bool {
    bitmap & (1u8 << ((8 - row) as u8)) != 0
}

/// Whether a row byte is lit at `col` (0 = left, 7 = right).
pub open spec fn col_lit(byte: u8, col: u8) -> bool {
    byte & (1u8 << ((7 - col) as u8)) != 0
}

/// The bar bitmap of one vote percentage.
pub open spec fn bar_bits(pct: u8) -> u8 {
    low_ones(bar_height(pct)) as u8
}

/// The bar bitmaps of the four modules for the vote percentages of the four options.
pub open spec fn bars(pct: [u8; 4]) -> [u8; 4] {
    [
        bar_bits(pct[OPTION_FOR_MODULE[0] as int]),
        bar_bits(pct[OPTION_FOR_MODULE[1] as int]),
        bar_bits(pct[OPTION_FOR_MODULE[2] as int]),
        bar_bits(pct[OPTION_FOR_MODULE[3] as int]),
    ]
}

/// The bars with the module of `blink_option` inverted, lit rows for dark ones, in odd phases.
pub open spec fn blink_bars(pct: [u8; 4], blink_option: usize, phase: u8) -> [u8; 4] {
    [
        blink_bar(pct, 0, blink_option, phase),
        blink_bar(pct, 1, blink_option, phase),
        blink_bar(pct, 2, blink_option, phase),
        blink_bar(pct, 3, blink_option, phase),
    ]
}

/// The bar of one module in the blink animation.
pub open spec fn blink_bar(pct: [u8; 4], module: int, blink_option: usize, phase: u8) -> u8 {
    if OPTION_FOR_MODULE[module] == blink_option && phase % 2 == 1 {
        !bars(pct)[module]
    } else {
        bars(pct)[module]
    }
}

/// What a module shows in `row` under the bar bitmap `bar`: the bar with the letter cut out.
pub open spec fn row_byte(bar: u8, module: int, row: u8) -> u8 {
    (if row_lit(bar, row) {
        BAR_FILLED
    } else {
        0u8
    }) ^ LETTERS[OPTION_FOR_MODULE[module] as int][row - 1]
}

/// What the four modules show in `row`.
pub open spec fn row_bytes(bar_lit: [u8; 4], row: u8) -> [u8; 4] {
    [
        row_byte(bar_lit[0], 0, row),
        row_byte(bar_lit[1], 1, row),
        row_byte(bar_lit[2], 2, row),
        row_byte(bar_lit[3], 3, row),
    ]
}

/// The first `modules` modules at `inside`, the others at `outside`.
pub open spec fn split_bars(modules: int, inside: u8, outside: u8) -> [u8; 4] {
    [
        if modules > 0 {
            inside
        } else {
            outside
        },
        if modules > 1 {
            inside
        } else {
            outside
        },
        if modules > 2 {
            inside
        } else {
            outside
        },
        if modules > 3 {
            inside
        } else {
            outside
        },
    ]
}

// --- what goes over the bus ---

/// One register write to each module: `data[0]` for the module closest to DIN. Bytes move down the
/// chain as more follow, so those for the last module go first.
pub open spec fn frame(data: [u8; 4], register: u8) -> [u8; 8] {
    [register, data[3], register, data[2], register, data[1], register, data[0]]
}

/// A frame between its chip select edges.
pub open spec fn transaction(data: [u8; 4], register: u8) -> Seq<BusOp> {
    seq![BusOp::CsLow, BusOp::Write(frame(data, register)), BusOp::CsHigh]
}

/// The same value for one register of all modules.
pub open spec fn command_ops(register: u8, value: u8) -> Seq<BusOp> {
    transaction([value, value, value, value], register)
}

/// The topmost `rows` rows of a picture.
pub open spec fn rows_ops(bar_lit: [u8; 4], rows: nat) -> Seq<BusOp>
    decreases rows,
{
    if rows == 0 {
        seq![]
    } else {
        rows_ops(bar_lit, (rows - 1) as nat) + transaction(
            row_bytes(bar_lit, rows as u8),
            rows as u8,
        )
    }
}

/// A whole picture, row by row from the top.
pub open spec fn render_ops(bar_lit: [u8; 4]) -> Seq<BusOp> {
    rows_ops(bar_lit, 8)
}

/// The first `frames` frames of a sweep that turns one module after another from `outside` to
/// `inside`.
pub open spec fn sweep_ops(frames: nat, inside: u8, outside: u8) -> Seq<BusOp>
    decreases frames,
{
    if frames == 0 {
        seq![]
    } else {
        sweep_ops((frames - 1) as nat, inside, outside) + render_ops(
            split_bars(frames as int, inside, outside),
        ) + seq![BusOp::DelayMs(SWEEP_STEP_MS)]
    }
}

/// The startup animation: the bars fill up from the first module to the last, stand, and drain in
/// the same order.
pub open spec fn startup_ops() -> Seq<BusOp> {
    sweep_ops(4, 0xFF, 0) + seq![BusOp::DelayMs(SWEEP_HOLD_MS)] + sweep_ops(4, 0, 0xFF)
}

/// Bringing the modules up: no display test, raw pixels in place of digits, all eight rows,
/// brightness 7 of 15, power on, and the letters without bars.
pub open spec fn init_ops() -> Seq<BusOp> {
    command_ops(REG_DISPLAY_TEST, 0x00) + command_ops(REG_DECODE_MODE, 0x00) + command_ops(
        REG_SCAN_LIMIT,
        0x07,
    ) + command_ops(REG_INTENSITY, 0x07) + command_ops(REG_SHUTDOWN, 0x01) + render_ops(
        [0, 0, 0, 0],
    )
}

proof fn lemma_low_ones_values()
    ensures
        low_ones(0) == 0,
        low_ones(1) == 1,
        low_ones(2) == 3,
        low_ones(3) == 7,
        low_ones(4) == 15,
        low_ones(5) == 31,
        low_ones(6) == 63,
        low_ones(7) == 127,
        low_ones(8) == 255,
{
    reveal_with_fuel(low_ones, 9);
}

proof fn lemma_mask_values(h: u8)
    ensures
        h < 8 ==> (1u8 << h) >= 1 && (1u8 << h) - 1 == low_ones(h as nat),
{
    lemma_low_ones_values();
    assert(1u8 << 0u8 == 1 && 1u8 << 1u8 == 2 && 1u8 << 2u8 == 4 && 1u8 << 3u8 == 8 && 1u8 << 4u8
        == 16 && 1u8 << 5u8 == 32 && 1u8 << 6u8 == 64 && 1u8 << 7u8 == 128) by (bit_vector);
}

/// Convert vote percentages, by option, to bar bitmaps, by module position.
pub fn bars_from_pct(pct: [u8; 4]) -> (bar_lit: [u8; 4])
    ensures
        bar_lit == bars(pct),
{
    let mut bar_lit: [u8; 4] = [0u8; 4];
    let mut i: usize = 0;
    while i < NUM_DEVICES
        invariant
            i <= NUM_DEVICES,
            forall|j: int| 0 <= j < i ==> bar_lit[j] == bars(pct)[j],
        decreases NUM_DEVICES - i,
    {
        let vote: u8 = pct[OPTION_FOR_MODULE[i]];
        let p: u16 = if vote > 100 {
            100
        } else {
            vote as u16
        };
        let h: u8 = ((p * 8 + 50) / 100) as u8;
        proof {
            lemma_low_ones_values();
            lemma_mask_values(h);
        }
        bar_lit[i] = if h >= 8 {
            0xFF
        } else {
            (1u8 << h) - 1
        };
        i += 1;
    }
    assert(bar_lit =~= bars(pct));
    bar_lit
}

/// Module position that displays the given quiz option, if there is one.
pub fn module_for_option(option: usize) -> (module: Option<usize>)
    ensures
        module is Some <==> option < NUM_DEVICES,
        module matches Some(m) ==> m < NUM_DEVICES && OPTION_FOR_MODULE[m as int] == option,
{
    let mut i: usize = 0;
    while i < NUM_DEVICES
        invariant
            i <= NUM_DEVICES,
            forall|j: int| 0 <= j < i ==> OPTION_FOR_MODULE[j] != option,
        decreases NUM_DEVICES - i,
    {
        if OPTION_FOR_MODULE[i] == option {
            return Some(i);
        }
        i += 1;
    }
    proof {
        lemma_option_for_module();
    }
    None
}

/// The display driver: a queue of bus operations that the board has yet to carry out.
#[derive(Debug)]
pub struct QuizDisplay {
    pending: Vec<BusOp>,
}

impl View for QuizDisplay {
    type V = Seq<BusOp>;

    /// The queued operations, the next one first.
    closed spec fn view(&self) -> Seq<BusOp> {
        self.pending@
    }
}

impl QuizDisplay {
    /// A driver with nothing queued.
    pub fn new() -> (display: Self)
        ensures
            display@ == Seq::<BusOp>::empty(),
    {
        QuizDisplay { pending: Vec::new() }
    }

    /// Hand the queued operations over to the board.
    pub fn take_pending(&mut self) -> (ops: Vec<BusOp>)
        ensures
            ops@ == old(self)@,
            final(self)@ == Seq::<BusOp>::empty(),
    {
        let mut ops: Vec<BusOp> = Vec::new();
        std::mem::swap(&mut ops, &mut self.pending);
        ops
    }

    /// Initialize all four modules.
    pub fn init(&mut self)
        ensures
            final(self)@ == old(self)@ + init_ops(),
    {
        self.command_all(REG_DISPLAY_TEST, 0x00);
        self.command_all(REG_DECODE_MODE, 0x00);
        self.command_all(REG_SCAN_LIMIT, 0x07);
        self.command_all(REG_INTENSITY, 0x07);
        self.command_all(REG_SHUTDOWN, 0x01);
        self.clear();
    }

    /// Show the letters without bars (ready state between questions).
    pub fn clear(&mut self)
        ensures
            final(self)@ == old(self)@ + render_ops([0, 0, 0, 0]),
    {
        let dark: [u8; 4] = [0u8; 4];
        assert(dark =~= [0u8, 0u8, 0u8, 0u8]);
        self.render(dark);
    }

    /// Show the bar chart of the vote percentages, each 0 to 100.
    pub fn show_bars(&mut self, pct: [u8; 4])
        ensures
            final(self)@ == old(self)@ + render_ops(bars(pct)),
    {
        self.render(bars_from_pct(pct));
    }

    /// Show one frame of the blink animation: the bar chart, with the bar of `blink_option`
    /// inverted in odd phases.
    pub fn show_with_blink(&mut self, pct: [u8; 4], blink_option: usize, phase: u8)
        ensures
            final(self)@ == old(self)@ + render_ops(blink_bars(pct, blink_option, phase)),
    {
        let mut bar_lit: [u8; 4] = bars_from_pct(pct);
        if let Some(module) = module_for_option(blink_option) {
            if phase % 2 == 1 {
                bar_lit[module] = !bar_lit[module];
            }
        }
        assert(bar_lit =~= blink_bars(pct, blink_option, phase)) by {
            lemma_option_for_module();
        }
        self.render(bar_lit);
    }

    /// Startup animation: sweep the bars up from the first module to the last, then drain them.
    pub fn startup_animation(&mut self)
        ensures
            final(self)@ == old(self)@ + startup_ops(),
    {
        self.sweep(0xFF, 0);
        self.pending.push(BusOp::DelayMs(SWEEP_HOLD_MS));
        self.sweep(0, 0xFF);
    }

    /// Turn one module after another from `outside` to `inside`.
    fn sweep(&mut self, inside: u8, outside: u8)
        ensures
            final(self)@ == old(self)@ + sweep_ops(4, inside, outside),
    {
        let mut module: usize = 0;
        while module < NUM_DEVICES
            invariant
                module <= NUM_DEVICES,
                self@ == old(self)@ + sweep_ops(module as nat, inside, outside),
            decreases NUM_DEVICES - module,
        {
            let mut bar_lit: [u8; 4] = [outside; 4];
            let mut m: usize = 0;
            while m <= module
                invariant
                    m <= module + 1,
                    module < NUM_DEVICES,
                    forall|j: int| 0 <= j < m ==> bar_lit[j] == inside,
                    forall|j: int| m <= j < 4 ==> bar_lit[j] == outside,
                decreases module + 1 - m,
            {
                bar_lit[m] = inside;
                m += 1;
            }
            assert(bar_lit =~= split_bars(module + 1, inside, outside));
            self.render(bar_lit);
            self.pending.push(BusOp::DelayMs(SWEEP_STEP_MS));
            module += 1;
        }
    }

    /// Show a picture given by the bar bitmaps of the modules.
    pub fn render(&mut self, bar_lit: [u8; 4])
        ensures
            final(self)@ == old(self)@ + render_ops(bar_lit),
    {
        let mut row: u8 = 1;
        while row <= 8
            invariant
                1 <= row <= 9,
                self@ == old(self)@ + rows_ops(bar_lit, (row - 1) as nat),
            decreases 9 - row,
        {
            let row_bit: u8 = 1u8 << (8 - row);
            let mut data: [u8; 4] = [0u8; 4];
            let mut i: usize = 0;
            while i < NUM_DEVICES
                invariant
                    i <= NUM_DEVICES,
                    1 <= row <= 8,
                    row_bit == 1u8 << ((8 - row) as u8),
                    forall|j: int| 0 <= j < i ==> data[j] == row_bytes(bar_lit, row)[j],
                decreases NUM_DEVICES - i,
            {
                let bar: u8 = if bar_lit[i] & row_bit != 0 {
                    BAR_FILLED
                } else {
                    0x00
                };
                let letter: u8 = LETTERS[OPTION_FOR_MODULE[i]][(row - 1) as usize];
                data[i] = bar ^ letter;
                i += 1;
            }
            assert(data =~= row_bytes(bar_lit, row));
            self.send_raw(&data, row);
            row += 1;
        }
    }

    /// Send the same register value to all modules.
    pub fn command_all(&mut self, register: u8, value: u8)
        ensures
            final(self)@ == old(self)@ + command_ops(register, value),
    {
        let data: [u8; 4] = [value; 4];
        assert(data =~= [value, value, value, value]);
        self.send_raw(&data, register);
    }

    /// Send one register write to each module in the chain, `data[0]` to the one closest to DIN.
    pub fn send_raw(&mut self, data: &[u8; 4], register: u8)
        ensures
            final(self)@ == old(self)@ + transaction(*data, register),
    {
        let mut buf: [u8; 8] = [0u8; 8];
        let mut i: usize = 0;
        while i < NUM_DEVICES
            invariant
                i <= NUM_DEVICES,
                forall|j: int| 0 <= j < 2 * i ==> buf[j] == frame(*data, register)[j],
            decreases NUM_DEVICES - i,
        {
            let dev: usize = NUM_DEVICES - 1 - i;
            buf[i * 2] = register;
            buf[i * 2 + 1] = data[dev];
            i += 1;
        }
        assert(buf =~= frame(*data, register));
        self.pending.push(BusOp::CsLow);
        self.pending.push(BusOp::Write(buf));
        self.pending.push(BusOp::CsHigh);
    }
}

// --- laws of the picture ---

/// A bar has at most eight rows, and its height is the one nearest to the vote's share of eight
/// rows: never as much as half a row off.
pub proof fn law_bar_height_nearest(pct: u8)
    ensures
        ({
            let p: int = if pct > 100 {
                100
            } else {
                pct as int
            };
            &&& bar_height(pct) <= 8
            &&& -50 < 100 * bar_height(pct) - 8 * p < 50
        }),
{
    let p: int = if pct > 100 {
        100
    } else {
        pct as int
    };
    // There are no ties: `8 * p + 50` leaves 2 when divided by 4, a multiple of 100 leaves nothing.
    assert(100 * bar_height(pct) != 8 * p + 50) by {
        assert((8 * p + 50) % 4 == 2);
        assert((100 * bar_height(pct)) % 4 == 0);
    }
}

/// No votes give no bar, all votes give a full one, and more votes never give a lower one.
pub proof fn law_bar_height_monotone(pct: u8, more: u8)
    requires
        pct <= more,
    ensures
        bar_height(pct) <= bar_height(more) <= 8,
        pct == 0 ==> bar_height(pct) == 0,
        pct >= 100 ==> bar_height(pct) == 8,
{
}

/// A bar stands on the bottom row: exactly its lowest `bar_height` rows are lit.
pub proof fn law_bar_from_bottom(pct: u8, row: u8)
    requires
        1 <= row <= 8,
    ensures
        row_lit(bar_bits(pct), row) <==> row + bar_height(pct) > 8,
{
    lemma_low_ones_values();
    let h = bar_height(pct) as u8;
    let n = (8 - row) as u8;
    lemma_mask_values(h);
    if h < 8 {
        let bits = bar_bits(pct);
        assert(bits & (1u8 << n) != 0 <==> n < h) by (bit_vector)
            requires
                h < 8,
                n < 8,
                bits == (1u8 << h) - 1,
        ;
    } else {
        assert(0xFFu8 & (1u8 << n) != 0) by (bit_vector)
            requires
                n < 8,
        ;
    }
}

/// Every option is shown by exactly one module.
pub proof fn law_one_module_per_option(option: usize)
    requires
        option < 4,
    ensures
        exists|module: int| 0 <= module < 4 && #[trigger] OPTION_FOR_MODULE[module] == option,
        forall|i: int, j: int|
            0 <= i < 4 && 0 <= j < 4 && OPTION_FOR_MODULE[i] == option && OPTION_FOR_MODULE[j]
                == option ==> i == j,
{
    lemma_option_for_module();
    assert(OPTION_FOR_MODULE[3 - option] == option);
}

proof fn lemma_option_for_module()
    ensures
        OPTION_FOR_MODULE[0] == 3,
        OPTION_FOR_MODULE[1] == 2,
        OPTION_FOR_MODULE[2] == 1,
        OPTION_FOR_MODULE[3] == 0,
{
}

/// The letters keep to the four middle columns and leave the bottom row free.
pub proof fn law_letters_in_the_middle(option: int, row: u8, col: u8)
    requires
        0 <= option < 4,
        1 <= row <= 8,
        col < 8,
        col_lit(LETTERS[option][row - 1], col),
    ensures
        2 <= col <= 5,
        row < 8,
{
    let byte = LETTERS[option][row - 1];
    let n = (7 - col) as u8;
    assert(option == 0 || option == 1 || option == 2 || option == 3);
    assert(row == 1 || row == 2 || row == 3 || row == 4 || row == 5 || row == 6 || row == 7 || row
        == 8);
    assert(byte & 0b1100_0011 == 0) by {
        assert(0b0001_1000u8 & 0b1100_0011 == 0 && 0b0010_0100u8 & 0b1100_0011 == 0 && 0b0011_1100u8
            & 0b1100_0011 == 0 && 0b0011_1000u8 & 0b1100_0011 == 0 && 0b0001_1100u8 & 0b1100_0011
            == 0 && 0b0010_0000u8 & 0b1100_0011 == 0 && 0u8 & 0b1100_0011 == 0) by (bit_vector);
    }
    assert(2 <= n <= 5) by (bit_vector)
        requires
            n < 8,
            byte & 0b1100_0011 == 0,
            byte & (1u8 << n) != 0,
    ;
    assert(0u8 & (1u8 << n) == 0) by (bit_vector);
}

/// Even phases of the blink animation, and options that no module shows, leave the bar chart as it
/// is.
pub proof fn law_blink_rests(pct: [u8; 4], blink_option: usize, phase: u8)
    requires
        phase % 2 == 0 || blink_option >= 4,
    ensures
        blink_bars(pct, blink_option, phase) == bars(pct),
{
    lemma_option_for_module();
    assert(blink_bars(pct, blink_option, phase) =~= bars(pct));
}

/// Odd phases swap lit and dark rows on the module of the blinking option and on no other.
pub proof fn law_blink_inverts(pct: [u8; 4], blink_option: usize, phase: u8, module: int, row: u8)
    requires
        phase % 2 == 1,
        0 <= module < 4,
        1 <= row <= 8,
    ensures
        row_lit(blink_bars(pct, blink_option, phase)[module], row) == if OPTION_FOR_MODULE[module]
            == blink_option {
            !row_lit(bars(pct)[module], row)
        } else {
            row_lit(bars(pct)[module], row)
        },
{
    assert(module == 0 || module == 1 || module == 2 || module == 3);
    let bits = bars(pct)[module];
    let n = (8 - row) as u8;
    assert(!bits & (1u8 << n) != 0 <==> bits & (1u8 << n) == 0) by (bit_vector)
        requires
            n < 8,
    ;
}

/// The operations of a picture: in each row a frame between its chip select edges.
proof fn lemma_rows_ops_at(bar_lit: [u8; 4], rows: nat, row: int)
    requires
        1 <= row <= rows <= 8,
    ensures
        rows_ops(bar_lit, rows).len() == 3 * rows,
        rows_ops(bar_lit, rows)[3 * row - 3] == BusOp::CsLow,
        rows_ops(bar_lit, rows)[3 * row - 2] == BusOp::Write(
            frame(row_bytes(bar_lit, row as u8), row as u8),
        ),
        rows_ops(bar_lit, rows)[3 * row - 1] == BusOp::CsHigh,
    decreases rows,
{
    let above = (rows - 1) as nat;
    if above == 0 {
        assert(rows_ops(bar_lit, 0).len() == 0);
    } else if row < rows {
        lemma_rows_ops_at(bar_lit, above, row);
    } else {
        lemma_rows_ops_at(bar_lit, above, 1);
    }
}

/// Inverting the bar bitmap of one module inverts its byte in the frame of every row, and changes
/// nothing else that goes over the bus.
pub proof fn law_inverted_bar_inverts_bytes(
    bar_lit: [u8; 4],
    inverted: [u8; 4],
    module: int,
    row: int,
)
    requires
        0 <= module < 4,
        1 <= row <= 8,
        inverted[module] == !bar_lit[module],
        forall|other: int| 0 <= other < 4 && other != module ==> inverted[other] == bar_lit[other],
    ensures
        render_ops(bar_lit).len() == 24,
        render_ops(inverted).len() == 24,
        render_ops(inverted)[3 * row - 3] == render_ops(bar_lit)[3 * row - 3],
        render_ops(inverted)[3 * row - 1] == render_ops(bar_lit)[3 * row - 1],
        ({
            let before = render_ops(bar_lit)[3 * row - 2];
            let after = render_ops(inverted)[3 * row - 2];
            &&& before is Write
            &&& after is Write
            &&& after->Write_0[7 - 2 * module] == !before->Write_0[7 - 2 * module]
            &&& forall|i: int|
                0 <= i < 8 && i != 7 - 2 * module ==> after->Write_0[i] == before->Write_0[i]
        }),
{
    lemma_rows_ops_at(bar_lit, 8, row);
    lemma_rows_ops_at(inverted, 8, row);
    let r = row as u8;
    let bits = bar_lit[module];
    let n = (8 - r) as u8;
    let letter = LETTERS[OPTION_FOR_MODULE[module] as int][r - 1];
    assert(!bits & (1u8 << n) != 0 <==> bits & (1u8 << n) == 0) by (bit_vector)
        requires
            n < 8,
    ;
    assert(0xFFu8 ^ letter == !(0u8 ^ letter) && 0u8 ^ letter == !(0xFFu8 ^ letter))
        by (bit_vector);
    assert(row_byte(inverted[module], module, r) == !row_byte(bar_lit[module], module, r));
    assert(module == 0 || module == 1 || module == 2 || module == 3);
}

/// At 0% and 100% the blink is a clean flash between the plain letter and the full bar.
pub proof fn law_blink_flashes_at_extremes(pct: [u8; 4], blink_option: usize, module: int)
    requires
        0 <= module < 4,
        OPTION_FOR_MODULE[module] == blink_option,
    ensures
        pct[blink_option as int] == 0 ==> bars(pct)[module] == 0 && blink_bars(
            pct,
            blink_option,
            1,
        )[module] == 0xFF,
        pct[blink_option as int] >= 100 ==> bars(pct)[module] == 0xFF && blink_bars(
            pct,
            blink_option,
            1,
        )[module] == 0,
{
    lemma_low_ones_values();
    lemma_option_for_module();
    assert(module == 0 || module == 1 || module == 2 || module == 3);
    assert(!0u8 == 0xFFu8 && !0xFFu8 == 0u8) by (bit_vector);
}

/// A chart without votes is the cleared display.
pub proof fn lemma_no_votes_no_bars()
    ensures
        bars([0, 0, 0, 0]) == [0u8, 0u8, 0u8, 0u8],
{
    lemma_low_ones_values();
    lemma_option_for_module();
    assert(bars([0, 0, 0, 0]) =~= [0u8, 0u8, 0u8, 0u8]);
}

/// The audience reads D C B A: the first module of the chain shows the last option, and each next
/// module the option before.
pub proof fn law_options_read_backwards(module: int)
    requires
        0 <= module < 4,
    ensures
        OPTION_FOR_MODULE[module] + module == 3,
{
    assert(module == 0 || module == 1 || module == 2 || module == 3);
}

/// The letters by their strokes, each at most seven rows high and four columns wide. A: two legs, a
/// short top and a crossbar. B: a stem with two bowls. C: a stem with a top and a bottom. D: a stem
/// with one bowl.
pub proof fn law_letters_by_strokes(row: u8, col: u8)
    requires
        1 <= row <= 8,
        col < 8,
    ensures
        col_lit(LETTERS[0][row - 1], col) <==> {
            ||| (col == 2 || col == 5) && 2 <= row <= 7
            ||| (col == 3 || col == 4) && (row == 1 || row == 5)
        },
        col_lit(LETTERS[1][row - 1], col) <==> {
            ||| col == 2 && row <= 7
            ||| (col == 3 || col == 4) && (row == 1 || row == 4 || row == 7)
            ||| col == 5 && (row == 2 || row == 3 || row == 5 || row == 6)
        },
        col_lit(LETTERS[2][row - 1], col) <==> {
            ||| col == 2 && 2 <= row <= 6
            ||| (col == 3 || col == 4 || col == 5) && (row == 1 || row == 7)
        },
        col_lit(LETTERS[3][row - 1], col) <==> {
            ||| col == 2 && row <= 7
            ||| (col == 3 || col == 4) && (row == 1 || row == 7)
            ||| col == 5 && 2 <= row <= 6
        },
{
    assert(row == 1 || row == 2 || row == 3 || row == 4 || row == 5 || row == 6 || row == 7 || row
        == 8);
    let n = (7 - col) as u8;
    assert({
        &&& 0u8 & (1u8 << n) == 0
        &&& 0b0001_1000u8 & (1u8 << n) != 0 <==> n == 4 || n == 3
        &&& 0b0010_0100u8 & (1u8 << n) != 0 <==> n == 5 || n == 2
        &&& 0b0011_1100u8 & (1u8 << n) != 0 <==> 2 <= n <= 5
        &&& 0b0011_1000u8 & (1u8 << n) != 0 <==> 3 <= n <= 5
        &&& 0b0001_1100u8 & (1u8 << n) != 0 <==> 2 <= n <= 4
        &&& 0b0010_0000u8 & (1u8 << n) != 0 <==> n == 5
    }) by (bit_vector)
        requires
            n < 8,
    ;
}

/// A sweep is a run of frames of 25 operations each, the picture and a pause; a shorter sweep is
/// the start of a longer one.
pub(crate) proof fn lemma_sweep_prefix(frames: nat, longer: nat, inside: u8, outside: u8)
    requires
        frames <= longer <= 4,
    ensures
        sweep_ops(longer, inside, outside).len() == 25 * longer,
        sweep_ops(longer, inside, outside).take(25 * frames as int) == sweep_ops(
            frames,
            inside,
            outside,
        ),
    decreases longer,
{
    let ops = sweep_ops(longer, inside, outside);
    if longer == 0 {
        assert(ops.take(0) =~= ops);
    } else {
        let earlier = (longer - 1) as nat;
        lemma_rows_ops_at(split_bars(longer as int, inside, outside), 8, 1);
        lemma_sweep_prefix(
            if frames < longer {
                frames
            } else {
                earlier
            },
            earlier,
            inside,
            outside,
        );
        if frames < longer {
            assert(ops.take(25 * frames as int) =~= sweep_ops(earlier, inside, outside).take(
                25 * frames as int,
            ));
        } else {
            assert(ops.take(25 * frames as int) =~= ops);
        }
    }
}

} // verus!
