use quiz_display::display::{
    bars_from_pct, module_for_option, BusOp, QuizDisplay, LETTERS, NUM_DEVICES, OPTION_FOR_MODULE,
};

/// The chain as the hardware has it: shift on write, latch on the rising edge of chip select.
struct Chain {
    selected: bool,
    shifted: Vec<u8>,
    registers: [[u8; 16]; 4],
    paused_ms: u64,
}

impl Chain {
    fn new(fill: u8) -> Self {
        Chain { selected: false, shifted: vec![fill; 8], registers: [[fill; 16]; 4], paused_ms: 0 }
    }

    fn run(&mut self, ops: Vec<BusOp>) {
        for op in ops {
            match op {
                BusOp::CsLow => self.selected = true,
                BusOp::Write(bytes) => {
                    for byte in bytes {
                        self.shifted.remove(0);
                        self.shifted.push(byte);
                    }
                }
                BusOp::CsHigh => {
                    if self.selected {
                        for module in 0..4 {
                            let at = 2 * (3 - module);
                            let register = (self.shifted[at] & 0x0F) as usize;
                            self.registers[module][register] = self.shifted[at + 1];
                        }
                    }
                    self.selected = false;
                }
                BusOp::DelayMs(ms) => self.paused_ms += ms,
            }
        }
    }

    fn rows(&self, module: usize) -> Vec<u8> {
        (1..=8).map(|row| self.registers[module][row]).collect()
    }
}

fn picture(module: usize, draw: fn(&mut QuizDisplay)) -> Vec<String> {
    let mut display = QuizDisplay::new();
    draw(&mut display);
    let mut chain = Chain::new(0xA5);
    chain.run(display.take_pending());
    chain
        .rows(module)
        .iter()
        .map(|byte| {
            (0..8).map(|col| if byte & (0x80 >> col) != 0 { '#' } else { '.' }).collect::<String>()
        })
        .collect()
}

#[test]
fn bar_bitmaps_by_module() {
    // 70% of A is the last module's, 2% of D the first one's.
    assert_eq!(bars_from_pct([70, 20, 8, 2]), [0b0, 0b1, 0b11, 0b0011_1111]);
    assert_eq!(bars_from_pct([0, 100, 75, 50]), [0b1111, 0b0011_1111, 0xFF, 0]);
}

#[test]
fn bar_heights_round_half_up() {
    let height = |pct: u8| bars_from_pct([pct; 4])[0].count_ones();
    assert_eq!(height(0), 0);
    assert_eq!(height(6), 0);
    assert_eq!(height(7), 1);
    assert_eq!(height(18), 1);
    assert_eq!(height(19), 2);
    assert_eq!(height(50), 4);
    assert_eq!(height(75), 6);
    assert_eq!(height(93), 7);
    assert_eq!(height(94), 8);
    assert_eq!(height(100), 8);
}

#[test]
fn votes_above_hundred_count_as_hundred() {
    assert_eq!(bars_from_pct([101, 150, 200, 255]), [0xFF; 4]);
}

#[test]
fn bars_grow_with_the_votes_from_the_bottom() {
    for pct in 0..=255u8 {
        let bits = bars_from_pct([pct; 4])[0] as u16;
        assert_eq!(bits & (bits + 1), 0);
        if pct > 0 {
            assert!(bars_from_pct([pct - 1; 4])[0] as u16 <= bits);
        }
    }
}

#[test]
fn options_run_right_to_left() {
    assert_eq!(module_for_option(0), Some(3));
    assert_eq!(module_for_option(1), Some(2));
    assert_eq!(module_for_option(2), Some(1));
    assert_eq!(module_for_option(3), Some(0));
    assert_eq!(module_for_option(4), None);
    assert_eq!(module_for_option(usize::MAX), None);
}

#[test]
fn every_option_has_one_module() {
    for option in 0..NUM_DEVICES {
        let module = module_for_option(option).unwrap();
        assert_eq!(OPTION_FOR_MODULE[module], option);
        assert_eq!(OPTION_FOR_MODULE.iter().filter(|&&o| o == option).count(), 1);
    }
}

#[test]
fn letters_keep_to_the_middle() {
    for letter in LETTERS {
        for row in letter {
            assert_eq!(row & 0b1100_0011, 0);
        }
        assert_eq!(letter[7], 0);
    }
}

#[test]
fn letter_a_without_votes() {
    assert_eq!(
        picture(3, |d| d.show_bars([0, 0, 0, 0])),
        vec![
            "...##...", "..#..#..", "..#..#..", "..#..#..", "..####..", "..#..#..", "..#..#..",
            "........",
        ]
    );
}

#[test]
fn letter_a_cut_out_of_a_full_bar() {
    assert_eq!(
        picture(3, |d| d.show_bars([100, 0, 0, 0])),
        vec![
            "###..###", "##.##.##", "##.##.##", "##.##.##", "##....##", "##.##.##", "##.##.##",
            "########",
        ]
    );
}

#[test]
fn three_quarters_of_d_reach_row_three() {
    assert_eq!(
        picture(0, |d| d.show_bars([0, 0, 0, 75])),
        vec![
            "..###...", "..#..#..", "##.##.##", "##.##.##", "##.##.##", "##.##.##", "##...###",
            "########",
        ]
    );
}

#[test]
fn transaction_sends_the_last_module_first() {
    let mut display = QuizDisplay::new();
    display.clear();
    let ops = display.take_pending();
    assert_eq!(ops.len(), 24);
    assert_eq!(ops[0], BusOp::CsLow);
    assert_eq!(
        ops[1],
        BusOp::Write([1, 0b0001_1000, 1, 0b0011_1000, 1, 0b0001_1100, 1, 0b0011_1000])
    );
    assert_eq!(ops[2], BusOp::CsHigh);
    assert_eq!(ops[23], BusOp::CsHigh);
}

#[test]
fn init_configures_every_module() {
    let mut display = QuizDisplay::new();
    display.init();
    let ops = display.take_pending();
    assert_eq!(ops.len(), 13 * 3);
    assert_eq!(ops[1], BusOp::Write([0x0F, 0, 0x0F, 0, 0x0F, 0, 0x0F, 0]));
    let mut chain = Chain::new(0x5A);
    chain.run(ops);
    for module in 0..4 {
        assert_eq!(chain.registers[module][0x0F], 0);
        assert_eq!(chain.registers[module][0x09], 0);
        assert_eq!(chain.registers[module][0x0B], 7);
        assert_eq!(chain.registers[module][0x0A], 7);
        assert_eq!(chain.registers[module][0x0C], 1);
        assert_eq!(chain.rows(module), LETTERS[OPTION_FOR_MODULE[module]].to_vec());
    }
    assert!(!chain.selected);
}

#[test]
fn pictures_do_not_depend_on_what_was_there() {
    let mut display = QuizDisplay::new();
    display.show_bars([10, 20, 30, 40]);
    let ops = display.take_pending();
    let mut dark = Chain::new(0);
    dark.run(ops.clone());
    let mut lit = Chain::new(0xFF);
    lit.run(ops);
    for module in 0..4 {
        assert_eq!(dark.rows(module), lit.rows(module));
    }
}

#[test]
fn startup_animation_sweeps_and_drains() {
    let mut display = QuizDisplay::new();
    display.startup_animation();
    let ops = display.take_pending();
    assert_eq!(ops.len(), 8 * 25 + 1);
    let delays: Vec<u64> = ops
        .iter()
        .filter_map(|op| match op {
            BusOp::DelayMs(ms) => Some(*ms),
            _ => None,
        })
        .collect();
    assert_eq!(delays, vec![150, 150, 150, 150, 300, 150, 150, 150, 150]);
    let mut chain = Chain::new(0);
    chain.run(ops[..50].to_vec());
    // Two modules are full, which lights their free bottom row.
    assert_eq!((0..4).map(|m| chain.registers[m][8]).collect::<Vec<u8>>(), vec![255, 255, 0, 0]);
    chain.run(ops[50..].to_vec());
    for module in 0..4 {
        assert_eq!(chain.rows(module), LETTERS[OPTION_FOR_MODULE[module]].to_vec());
    }
    assert_eq!(chain.paused_ms, 1500);
}

#[test]
fn even_phases_show_the_chart() {
    let mut display = QuizDisplay::new();
    display.show_bars([40, 30, 20, 10]);
    let chart = display.take_pending();
    display.show_with_blink([40, 30, 20, 10], 1, 0);
    assert_eq!(display.take_pending(), chart);
    display.show_with_blink([40, 30, 20, 10], 1, 2);
    assert_eq!(display.take_pending(), chart);
    display.show_with_blink([40, 30, 20, 10], 4, 1);
    assert_eq!(display.take_pending(), chart);
}

#[test]
fn odd_phases_invert_the_blinking_bar() {
    let plain = picture(3, |d| d.show_bars([75, 30, 20, 10]));
    let inverted = picture(3, |d| d.show_with_blink([75, 30, 20, 10], 0, 1));
    for row in 0..8 {
        let flipped: String =
            plain[row].chars().map(|c| if c == '#' { '.' } else { '#' }).collect();
        assert_eq!(inverted[row], flipped);
    }
    assert_eq!(
        picture(2, |d| d.show_bars([75, 30, 20, 10])),
        picture(2, |d| d.show_with_blink([75, 30, 20, 10], 0, 1))
    );
}

#[test]
fn blink_at_the_extremes_is_a_clean_flash() {
    assert_eq!(
        picture(1, |d| d.show_with_blink([0, 0, 0, 0], 2, 1)),
        picture(1, |d| d.show_bars([0, 0, 100, 0]))
    );
    assert_eq!(
        picture(1, |d| d.show_with_blink([0, 0, 100, 0], 2, 1)),
        picture(1, |d| d.clear())
    );
}

#[test]
fn operations_queue_up_in_order() {
    let mut display = QuizDisplay::new();
    assert!(display.take_pending().is_empty());
    display.clear();
    let clear = display.take_pending();
    display.show_bars([1, 50, 99, 100]);
    let bars = display.take_pending();
    display.clear();
    display.show_bars([1, 50, 99, 100]);
    let both = display.take_pending();
    assert_eq!(both[..24].to_vec(), clear);
    assert_eq!(both[24..].to_vec(), bars);
    assert!(display.take_pending().is_empty());
}

#[test]
fn inverted_bar_inverts_its_bytes_alone() {
    // Option B is on the third module, whose byte is the fourth of a frame.
    let mut display = QuizDisplay::new();
    display.show_bars([10, 40, 70, 90]);
    let plain = display.take_pending();
    display.show_with_blink([10, 40, 70, 90], 1, 1);
    let inverted = display.take_pending();
    assert_eq!(plain.len(), inverted.len());
    let mut frames = 0;
    for (before, after) in plain.iter().zip(&inverted) {
        match (before, after) {
            (BusOp::Write(a), BusOp::Write(b)) => {
                for i in 0..8 {
                    assert_eq!(b[i], if i == 3 { !a[i] } else { a[i] });
                }
                frames += 1;
            }
            (a, b) => assert_eq!(a, b),
        }
    }
    assert_eq!(frames, 8);
}

#[test]
fn bar_heights_are_never_half_a_row_off() {
    for pct in 0..=255u8 {
        let height = bars_from_pct([pct; 4])[0].count_ones() as i32;
        assert!((100 * height - 8 * (pct as i32).min(100)).abs() < 50);
    }
}

#[test]
fn rendering_an_inverted_bitmap_inverts_its_module_alone() {
    let mut display = QuizDisplay::new();
    display.render([0b1, 0b11, 0b111, 0b1111]);
    let plain = display.take_pending();
    display.render([!0b1, 0b11, 0b111, 0b1111]);
    let inverted = display.take_pending();
    for row in 0..8 {
        match (plain[3 * row + 1], inverted[3 * row + 1]) {
            (BusOp::Write(a), BusOp::Write(b)) => {
                assert_eq!(b[..7], a[..7]);
                assert_eq!(b[7], !a[7]);
            }
            other => panic!("no frames: {:?}", other),
        }
    }
}

#[test]
fn raw_writes_reach_their_modules() {
    let mut display = QuizDisplay::new();
    display.send_raw(&[1, 2, 3, 4], 5);
    display.command_all(0x0A, 9);
    let ops = display.take_pending();
    assert_eq!(
        ops,
        vec![
            BusOp::CsLow,
            BusOp::Write([5, 4, 5, 3, 5, 2, 5, 1]),
            BusOp::CsHigh,
            BusOp::CsLow,
            BusOp::Write([10, 9, 10, 9, 10, 9, 10, 9]),
            BusOp::CsHigh,
        ]
    );
    let mut chain = Chain::new(0);
    chain.run(ops);
    for module in 0..4 {
        assert_eq!(chain.registers[module][5] as usize, module + 1);
        assert_eq!(chain.registers[module][10], 9);
    }
}
