use armos::backtrace::{fp_in_dtcm, frame_advances, frame_readable, MAX_BACKTRACE_FRAMES};
use armos::boot::{fail_reason, glyph5x7, hex_u32, os_vectors_look_valid, FONT5X7};
use armos::boot_hw::{
    board_pinmux_init, board_pinmux_table, boot_sequence, fmc_sdram_init, gpio_set_output_level,
    gpio_set_pin, halt_led_ops, handoff_ops, jump_to_os, led_set, ltdc_enable_fb,
    quadspi_enable_memmap, status_leds_init, BootStep, Handoff, GPIOE, LED_ERR, SCB_VTOR,
};
use armos::boot_panel::{fb_draw_text, fb_fill, show_os_load_fail_screen, COL_RED};
use armos::hal::regs::RegOp;
use armos::kui::kdraw::Surface;

#[test]
fn valid_vectors_are_accepted() {
    assert!(os_vectors_look_valid(0xC400_0000, 0x9000_0101));
    assert!(os_vectors_look_valid(0xC000_0000, 0x97FF_FFFF));
}

#[test]
fn invalid_vectors_are_rejected() {
    assert!(!os_vectors_look_valid(0xFFFF_FFFF, 0xFFFF_FFFF));
    assert!(!os_vectors_look_valid(0xC000_0004, 0x9000_0101));
    assert!(!os_vectors_look_valid(0x2002_0000, 0x9000_0101));
    assert!(!os_vectors_look_valid(0xC000_0000, 0x9000_0100));
    assert!(!os_vectors_look_valid(0xC000_0000, 0x9800_0001));
}

#[test]
fn fail_reasons_in_priority_order() {
    assert_eq!(fail_reason(0xFFFF_FFFF, 0xFFFF_FFFF), "NOR empty or erased (no image)");
    assert_eq!(fail_reason(0, 0x9000_0101), "NOR empty or erased (no image)");
    assert_eq!(fail_reason(0x2000_0000, 0x9000_0101), "Invalid MSP (need SDRAM stack)");
    assert_eq!(fail_reason(0xC000_0000, 0x9000_0100), "Reset vector missing Thumb bit");
    assert_eq!(fail_reason(0xC000_0000, 0x0800_0001), "Reset vector not in NOR XIP");
    assert_eq!(fail_reason(0xC000_0000, 0x9000_0001), "Vector table rejected");
}

#[test]
fn hex_u32_formats_upper_case() {
    let mut out = [0u8; 10];
    hex_u32(0xDEAD_BEEF, &mut out);
    assert_eq!(&out, b"0xDEADBEEF");
    hex_u32(0x0000_00A5, &mut out);
    assert_eq!(&out, b"0x000000A5");
}

#[test]
fn glyphs_fold_case_and_box_unknown() {
    assert_eq!(glyph5x7(b'a'), glyph5x7(b'A'));
    assert_eq!(glyph5x7(b'A'), FONT5X7[(b'A' - 0x20) as usize]);
    assert_eq!(glyph5x7(b' '), [0, 0, 0, 0, 0]);
    assert_eq!(glyph5x7(0x7F), [0x7F; 5]);
    assert_eq!(glyph5x7(b'~'), [0x7F; 5]);
}

#[test]
fn set_pin_alternate_function_high_pad() {
    let ops = gpio_set_pin(0x5802_1400, 10, 0b10, 9);
    assert_eq!(ops.len(), 3);
    assert_eq!(ops[0], RegOp::Modify { addr: 0x5802_1400, mask: 3 << 20, value: 2 << 20 });
    assert_eq!(ops[1], RegOp::Modify { addr: 0x5802_1408, mask: 3 << 20, value: 3 << 20 });
    assert_eq!(ops[2], RegOp::Modify { addr: 0x5802_1424, mask: 0xF << 8, value: 9 << 8 });
    let out = gpio_set_pin(0x5802_1400, 3, 0b01, 0);
    assert_eq!(out.len(), 2);
}

#[test]
fn output_level_ends_with_bsrr() {
    let hi = gpio_set_output_level(GPIOE, 4, true);
    assert_eq!(hi[hi.len() - 2], RegOp::Write { addr: GPIOE + 0x18, value: 1 << 4 });
    assert_eq!(hi.last(), Some(&RegOp::Read { addr: GPIOE + 0x14 }));
    let lo = led_set(LED_ERR, false);
    assert_eq!(lo[lo.len() - 2], RegOp::Write { addr: GPIOE + 0x18, value: 1 << 20 });
    assert_eq!(status_leds_init().len(), 16);
}

#[test]
fn pinmux_covers_qspi_and_fmc() {
    let t = board_pinmux_table();
    assert_eq!((t[0].port, t[0].pin, t[0].af), (0x5802_1400, 6, 9));
    assert_eq!((t[5].port, t[5].pin, t[5].af), (0x5802_1800, 6, 10));
    assert!(t[6..].iter().all(|m| m.af == 12));
    let ops = board_pinmux_init();
    assert_eq!(ops.len(), t.len() * 3 + 4);
    // NOR RESET# (PI11) is released right after the six QUADSPI pads.
    assert_eq!(ops[20], RegOp::Write { addr: 0x5802_2000 + 0x18, value: 1 << 11 });
    assert_eq!(ops[21], RegOp::Read { addr: 0x5802_2000 + 0x14 });
    assert_eq!(ops[22], RegOp::Modify { addr: 0x5802_1400, mask: 3, value: 2 });
}

#[test]
fn sdram_sequence_waits_after_each_command() {
    let s = fmc_sdram_init();
    assert_eq!(s.len(), 13);
    assert_eq!(s[0], BootStep::Op(RegOp::Write { addr: 0x5200_4140, value: 0x1959 }));
    assert_eq!(s[2], BootStep::WaitSdramReady);
    assert_eq!(s[11], BootStep::Op(RegOp::Write { addr: 0x5200_4154, value: 0x27C << 1 }));
    assert_eq!(s[12], BootStep::WaitSdramReady);
}

#[test]
fn quadspi_memory_mapped() {
    let ops = quadspi_enable_memmap();
    assert_eq!(ops.len(), 3);
    assert_eq!(ops[2], RegOp::Write { addr: 0x5200_5000, value: 1 });
}

#[test]
fn boot_sequence_orders_clocks_first() {
    let s = boot_sequence();
    assert_eq!(
        s[0],
        BootStep::Op(RegOp::Modify { addr: 0x5802_44E0, mask: 0x1FC, value: 0x1FC })
    );
    assert_eq!(s[1], BootStep::Op(RegOp::Read { addr: 0x5802_44E0 }));
    assert!(s.contains(&BootStep::Op(RegOp::Read { addr: 0x5802_44D4 })));
    assert_eq!(s.last(), Some(&BootStep::Op(RegOp::Write { addr: 0x5200_5000, value: 1 })));
    assert!(s.contains(&BootStep::WaitSdramReady));
}

#[test]
fn handoff_moves_vector_table() {
    let ops = handoff_ops();
    assert_eq!(ops.last(), Some(&RegOp::Write { addr: SCB_VTOR, value: 0x9000_0000 }));
    assert_eq!(halt_led_ops().len(), 16);
}

#[test]
fn jump_to_os_decides_on_vectors() {
    match jump_to_os(0xC400_0000, 0x9000_0101) {
        Handoff::Jump { ops, msp, entry } => {
            assert_eq!(msp, 0xC400_0000);
            assert_eq!(entry, 0x9000_0101);
            assert_eq!(ops, handoff_ops());
        }
        Handoff::Halt { .. } => panic!("valid image refused"),
    }
    match jump_to_os(0xFFFF_FFFF, 0xFFFF_FFFF) {
        Handoff::Halt { ops, msp, reset } => {
            assert_eq!((msp, reset), (0xFFFF_FFFF, 0xFFFF_FFFF));
            assert_eq!(ops, halt_led_ops());
        }
        Handoff::Jump { .. } => panic!("erased image accepted"),
    }
}

#[test]
fn fail_panel_ltdc_setup() {
    let ops = ltdc_enable_fb();
    assert_eq!(ops.len(), 19);
    assert_eq!(ops[1], RegOp::Read { addr: 0x5802_44E4 });
    assert_eq!(ops[2], RegOp::Write { addr: 0x5000_1008, value: 47 << 16 });
    assert_eq!(ops[12], RegOp::Write { addr: 0x5000_10AC, value: 0xC000_0000 });
}

#[test]
fn fb_fill_clips_to_surface() {
    let mut s = Surface::new(8, 8);
    fb_fill(&mut s, 6, 6, 5, 5, 3);
    assert_eq!(s.get_pixel(6, 6), 3);
    assert_eq!(s.get_pixel(7, 7), 3);
    assert_eq!(s.get_pixel(5, 6), 0);
}

#[test]
fn fb_draw_text_scales_glyph_bits() {
    let mut s = Surface::new(40, 20);
    fb_draw_text(&mut s, 0, 0, b"I", 2, 9);
    // 'I' column 1 is 0x41: rows 0 and 6 lit; column 2 is 0x7F: all rows lit.
    let g = glyph5x7(b'I');
    for col in 0..5u32 {
        for row in 0..7u32 {
            let lit = (g[col as usize] >> row) & 1 == 1;
            let want = if lit { 9 } else { 0 };
            assert_eq!(s.get_pixel(col * 2, row * 2), want);
            assert_eq!(s.get_pixel(col * 2 + 1, row * 2 + 1), want);
        }
    }
    assert_eq!(s.get_pixel(10, 0), 0);
}

#[test]
fn fb_draw_text_advances_six_columns() {
    let mut a = Surface::new(30, 10);
    fb_draw_text(&mut a, 0, 0, b"II", 1, 1);
    let mut b = Surface::new(30, 10);
    fb_draw_text(&mut b, 6, 0, b"I", 1, 1);
    for x in 6..30 {
        for y in 0..10 {
            assert_eq!(a.get_pixel(x, y), b.get_pixel(x, y));
        }
    }
}

#[test]
fn fail_screen_paints_title() {
    let mut s = Surface::new(800, 480);
    let ops = show_os_load_fail_screen(&mut s, 0xFFFF_FFFF, 0xFFFF_FFFF);
    assert_eq!(ops, ltdc_enable_fb());
    // 'B' column 0 is fully lit at scale 5.
    assert_eq!(s.get_pixel(40, 120), COL_RED);
    assert_eq!(s.get_pixel(0, 0), 0);
}

#[test]
fn backtrace_walk_guards() {
    assert_eq!(MAX_BACKTRACE_FRAMES, 16);
    assert!(fp_in_dtcm(0x2000_0000));
    assert!(fp_in_dtcm(0x2001_FFFF));
    assert!(!fp_in_dtcm(0x2002_0000));
    assert!(!frame_readable(0));
    assert!(frame_readable(0x2000_1000));
    assert!(frame_advances(0x2000_1000, 0x2000_1010));
    assert!(!frame_advances(0x2000_1000, 0x2000_1000));
}
