use armos::board::{FB_BYTES, FB_HEIGHT, FB_REGION_BASE, FB_STRIDE, FB_WIDTH};
use armos::drivers::display::ltdc::{
    configure_timings_and_layer, init as ltdc_init, set_front as ltdc_set_front, timings, LTDC_BASE,
};
use armos::drivers::display::soft::SoftScanout;
use armos::drivers::display::{buffer_base, framebuffer_config, front_base, DisplayState};
use armos::hal::regs::RegOp;
use armos::heap::stats::HeapStats;
use armos::kui::kdraw::{blend_coverage, Framebuffer, Surface};
use armos::kui::{
    format_bytes, kbackground, memory_tracker_text, memory_tracker_x, version_label,
    version_origin, CHROME,
};

#[test]
fn buffers_follow_each_other() {
    assert_eq!(buffer_base(0), FB_REGION_BASE);
    assert_eq!(buffer_base(1), FB_REGION_BASE + FB_BYTES as usize);
    assert_eq!(FB_BYTES, 800 * 480 * 4);
}

#[test]
fn present_alternates_buffers() {
    let mut d = DisplayState::new();
    assert_eq!(d.back_index(), 1);
    assert_eq!(d.front_base(), buffer_base(0));
    assert_eq!(d.framebuffer().base(), buffer_base(1));
    let p = d.present();
    assert_eq!(p.front, buffer_base(1));
    assert_eq!(p.back, buffer_base(0));
    assert_eq!(d.back_index(), 0);
    assert_eq!(d.framebuffer().base(), buffer_base(0));
    assert_ne!(d.framebuffer().base(), d.front_base());
    let q = d.present();
    assert_eq!(q.front, buffer_base(0));
    assert_eq!(d.back_index(), 1);
    assert_eq!(d.framebuffer().base(), buffer_base(1));
    for k in 0..6u32 {
        d.present();
        let fb = d.framebuffer();
        assert_eq!(fb.base(), fb.bases[((1 + k + 1) % 2) as usize]);
        assert_ne!(fb.base(), d.front_base());
    }
}

#[test]
fn front_base_needs_initialised_display() {
    assert_eq!(front_base(&None), None);
    assert_eq!(front_base(&Some(DisplayState::new())), Some(buffer_base(0)));
}

#[test]
fn framebuffer_config_draws_in_buffer_one() {
    let fb = framebuffer_config();
    assert_eq!(fb.base(), buffer_base(1));
    assert_eq!(fb.bytes_per_pixel(), 4);
    assert_eq!(fb.width, FB_WIDTH as u64);
    assert_eq!(fb.height, FB_HEIGHT as u64);
    assert_eq!(fb.pitch, FB_STRIDE as u64);
}

#[test]
fn pixel_offset_checks_bounds_and_format() {
    let fb = framebuffer_config();
    assert_eq!(fb.pixel_offset(0, 0), Some(0));
    assert_eq!(fb.pixel_offset(3, 2), Some(2 * 3200 + 12));
    assert_eq!(fb.pixel_offset(800, 0), None);
    assert_eq!(fb.pixel_offset(0, 480), None);
    let fb16 = Framebuffer { bases: [0, 0], back_idx: 0, width: 10, height: 10, pitch: 20, bpp: 16 };
    assert_eq!(fb16.pixel_offset(1, 1), None);
}

#[test]
fn soft_scanout_remembers_front() {
    assert_eq!(SoftScanout::new().front_addr(), 0);
    let mut s = SoftScanout::init(0x100);
    assert_eq!(s.front_addr(), 0x100);
    s.set_front(0x200);
    assert_eq!(s.front_addr(), 0x200);
}

#[test]
fn ltdc_timings_for_the_panel() {
    let t = timings();
    assert_eq!((t.hsw, t.vsh), (47, 0));
    assert_eq!((t.ahbp, t.avbp), (87, 31));
    assert_eq!((t.aaw, t.aah), (887, 511));
    assert_eq!((t.totalw, t.totalh), (927, 524));
    assert_eq!((t.whstpos, t.whsppos), (88, 887));
    assert_eq!((t.wvstpos, t.wvsppos), (32, 511));
    assert_eq!((t.line_len, t.pitch, t.lines), (3203, 3200, 480));
}

#[test]
fn ltdc_layer_setup_writes() {
    let ops = configure_timings_and_layer(0xC000_0000);
    assert_eq!(ops.len(), 15);
    assert_eq!(ops[0], RegOp::Write { addr: LTDC_BASE + 0x08, value: (47 << 16) | 0 });
    assert_eq!(ops[3], RegOp::Write { addr: LTDC_BASE + 0x14, value: (927 << 16) | 524 });
    assert_eq!(ops[5], RegOp::Write { addr: LTDC_BASE + 0x88, value: (887 << 16) | 88 });
    assert_eq!(ops[9], RegOp::Write { addr: LTDC_BASE + 0xA0, value: 0x405 });
    assert_eq!(ops[10], RegOp::Write { addr: LTDC_BASE + 0xAC, value: 0xC000_0000 });
    assert_eq!(ops[11], RegOp::Write { addr: LTDC_BASE + 0xB0, value: (3200 << 16) | 3203 });
    assert_eq!(ops[13], RegOp::Modify { addr: LTDC_BASE + 0x84, mask: 1, value: 1 });
    assert_eq!(ops[14], RegOp::Write { addr: LTDC_BASE + 0x24, value: 1 });
}

#[test]
fn ltdc_init_enables_clock_then_controller() {
    let ops = ltdc_init(0xC017_7000);
    assert_eq!(ops.len(), 18);
    assert_eq!(ops[0], RegOp::Modify { addr: 0x5802_44E4, mask: 1 << 3, value: 1 << 3 });
    assert_eq!(ops[1], RegOp::Read { addr: 0x5802_44E4 });
    assert_eq!(ops[12], RegOp::Write { addr: LTDC_BASE + 0xAC, value: 0xC017_7000 });
    assert_eq!(ops[17], RegOp::Modify { addr: LTDC_BASE + 0x18, mask: 1, value: 1 });
}

#[test]
fn ltdc_set_front_reloads() {
    let ops = ltdc_set_front(0x1234);
    assert_eq!(
        ops,
        vec![
            RegOp::Write { addr: LTDC_BASE + 0xAC, value: 0x1234 },
            RegOp::Write { addr: LTDC_BASE + 0x24, value: 1 },
        ]
    );
}

#[test]
fn blend_extremes_and_midpoint() {
    assert_eq!(blend_coverage(0x112233, 0xAABBCC, 0), 0x112233);
    assert_eq!(blend_coverage(0x112233, 0xAABBCC, 255), 0xAABBCC);
    assert_eq!(blend_coverage(0x000000, 0xFF00FF, 128), 0x800080);
    assert_eq!(blend_coverage(0x404040, 0x404040, 77), 0x404040);
}

#[test]
fn surface_pixels_and_bounds() {
    let mut s = Surface::new(4, 3);
    assert_eq!((s.width(), s.height()), (4, 3));
    assert_eq!(s.get_pixel(1, 1), 0);
    s.put_pixel(1, 1, 0xABCDEF);
    assert_eq!(s.get_pixel(1, 1), 0xABCDEF);
    s.put_pixel(9, 9, 0x1);
    assert_eq!(s.get_pixel(9, 9), 0);
}

#[test]
fn plot_coverage_cases() {
    let mut s = Surface::new(4, 4);
    s.put_pixel(0, 0, 0x000000);
    s.plot_coverage(0, 0, 0xFFFFFF, 0);
    assert_eq!(s.get_pixel(0, 0), 0);
    s.plot_coverage(0, 0, 0xFFFFFF, 250);
    assert_eq!(s.get_pixel(0, 0), 0xFFFFFF);
    s.plot_coverage(1, 0, 0xFF0000, 128);
    assert_eq!(s.get_pixel(1, 0), 0x800000);
    s.plot_coverage(10, 0, 0xFF0000, 255);
    assert_eq!(s.get_pixel(10, 0), 0);
}

#[test]
fn draw_rect_border_and_fill() {
    let mut s = Surface::new(10, 10);
    s.draw_rect(1, 1, 6, 5, 1, 7);
    assert_eq!(s.get_pixel(1, 1), 7);
    assert_eq!(s.get_pixel(6, 5), 7);
    assert_eq!(s.get_pixel(3, 3), 0);
    assert_eq!(s.get_pixel(0, 0), 0);
    assert_eq!(s.get_pixel(7, 1), 0);
    s.draw_rect(2, 2, 3, 2, 0, 9);
    assert_eq!(s.get_pixel(2, 2), 9);
    assert_eq!(s.get_pixel(4, 3), 9);
    assert_eq!(s.get_pixel(5, 3), 0);
    let mut e = Surface::new(3, 3);
    e.draw_rect(0, 0, 0, 3, 0, 5);
    assert_eq!(e.get_pixel(0, 0), 0);
}

#[test]
fn fill_span_paints_half_open_range() {
    let mut s = Surface::new(5, 5);
    s.fill_span(1, 3, 2, 4, 4);
    assert_eq!(s.get_pixel(1, 2), 4);
    assert_eq!(s.get_pixel(2, 3), 4);
    assert_eq!(s.get_pixel(3, 3), 0);
    assert_eq!(s.get_pixel(1, 4), 0);
}

#[test]
fn kbackground_clears_and_frames() {
    let mut s = Surface::new(100, 100);
    s.put_pixel(50, 50, 0x123456);
    kbackground(&mut s);
    assert_eq!(s.get_pixel(50, 50), 0);
    assert_eq!(s.get_pixel(10, 55), CHROME);
    assert_eq!(s.get_pixel(11, 56), CHROME);
    assert_eq!(s.get_pixel(12, 57), 0);
    assert_eq!(s.get_pixel(89, 89), CHROME);
    assert_eq!(s.get_pixel(90, 89), 0);
    assert_eq!(s.get_pixel(5, 5), 0);
}

#[test]
fn format_bytes_units() {
    assert_eq!(format_bytes(0), "0B");
    assert_eq!(format_bytes(512), "512B");
    assert_eq!(format_bytes(1023), "1023B");
    assert_eq!(format_bytes(1024), "1.0K");
    assert_eq!(format_bytes(1536), "1.5K");
    assert_eq!(format_bytes(1024 * 1024), "1.0M");
    assert_eq!(format_bytes(64 * 1024 * 1024), "64.0M");
    assert_eq!(format_bytes(3 * 1024 * 1024 + 900 * 1024), "3.8M");
}

#[test]
fn memory_tracker_line() {
    let st = HeapStats { used: 3 * 1024 * 1024, free: 61 * 1024 * 1024, total: 64 * 1024 * 1024, heap_total: 0, heap_used: 0 };
    assert_eq!(memory_tracker_text(st), "SDRAM  used 3.0M  free 61.0M  total 64.0M");
}

#[test]
fn chrome_layout_positions() {
    assert_eq!(memory_tracker_x(800, 300), 484);
    assert_eq!(version_label("ArmOS", "0.1.0"), "ArmOS v0.1.0");
    assert_eq!(version_origin(800, 480, 100, 17), (676, 445));
    assert_eq!(version_origin(800, 10, 100, 17), (676, 0));
}
