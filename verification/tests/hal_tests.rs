use armos::board::gpio::{is_restricted, requires_allow_flag, role, PinRole, PA9, PE3, PK2};
use armos::board::{usart1_rx, usart1_tx, GpioPort, UART_BAUD};
use armos::hal::clock::{apb2_prescaler, hclk_hz, hpre_divisor, pclk2_hz, sysclk_hz};
use armos::hal::gpio::{configure_af_pin, init_clocks, Pin, Port};
use armos::hal::led;
use armos::hal::regs::{gpioa, modify_reg, RegOp};
use armos::hal::semihost::message_buffer;
use armos::hal::uart::{
    configure_pin, configure_usart1, enable_gpio_clock, enable_usart1_clock, init_hw, tdr_write,
    tx_ready, usart_brr,
};
use armos::startup::{enable_fpu, set_vtor, CPACR, SCB_VTOR};

#[test]
fn regop_apply_modifies_only_masked_bits() {
    let op = modify_reg(0x4000_0000, 0x10, 0x0000_00F0, 0x0000_0050);
    assert_eq!(op, RegOp::Modify { addr: 0x4000_0010, mask: 0xF0, value: 0x50 });
    assert_eq!(op.addr(), 0x4000_0010);
    assert!(op.reads());
    assert_eq!(op.apply(0xFFFF_FFFF), 0xFFFF_FF5F);
    assert_eq!(op.apply(0), 0x50);
    let w = RegOp::Write { addr: 4, value: 7 };
    assert!(!w.reads());
    assert!(w.writes());
    assert_eq!(w.apply(0x1234), 7);
    let r = RegOp::Read { addr: 8 };
    assert!(r.reads());
    assert!(!r.writes());
    assert_eq!(r.addr(), 8);
    assert_eq!(r.apply(0x1234), 0x1234);
}

#[test]
fn port_numbering_round_trips() {
    for v in 0u8..=10 {
        let p = Port::from_u8(v).expect("port");
        assert_eq!(p.number(), v);
        assert_eq!(p.ahb4_bit(), 1u32 << v);
        assert_eq!(p.base(), 0x5802_0000 + 0x400 * v as usize);
    }
    assert!(Port::from_u8(11).is_none());
    assert!(Port::from_u8(255).is_none());
}

#[test]
fn output_pin_set_uses_bsrr_halves() {
    let (mut out, ops) = Pin::<false>::new(Port::E, 3).into_output();
    assert_eq!(ops[0], RegOp::Modify { addr: 0x5802_44E0, mask: 1 << 4, value: 1 << 4 });
    assert_eq!(out.set_high(), RegOp::Write { addr: 0x5802_1018, value: 1 << 3 });
    assert_eq!(out.set_low(), RegOp::Write { addr: 0x5802_1018, value: 1 << 19 });
    assert_eq!(out.odr_addr(), 0x5802_1014);
}

#[test]
fn output_pin_toggle_inverts_odr_bit() {
    let (mut out, _) = PE3().into_output();
    assert_eq!(out.toggle(0), RegOp::Write { addr: 0x5802_1018, value: 1 << 3 });
    assert_eq!(out.toggle(1 << 3), RegOp::Write { addr: 0x5802_1018, value: 1 << 19 });
    assert!(out.is_set_high(0b1000));
    assert!(!out.is_set_high(0b0100));
}

#[test]
fn output_config_sets_mode_type_and_speed() {
    let (_, ops) = Pin::<false>::new(Port::C, 5).into_output();
    assert_eq!(ops.len(), 6);
    assert_eq!(ops[1], RegOp::Read { addr: 0x5802_44E0 });
    assert_eq!(ops[2], RegOp::Modify { addr: 0x5802_0800, mask: 3 << 10, value: 1 << 10 });
    assert_eq!(ops[3], RegOp::Modify { addr: 0x5802_0804, mask: 1 << 5, value: 0 });
    assert_eq!(ops[4], RegOp::Modify { addr: 0x5802_0808, mask: 3 << 10, value: 3 << 10 });
    assert_eq!(ops[5], RegOp::Modify { addr: 0x5802_080C, mask: 3 << 10, value: 0 });
}

#[test]
fn input_pin_reads_idr() {
    let (inp, ops) = Pin::<false>::new(Port::B, 7).into_input_pull_up();
    assert_eq!(ops.last(), Some(&RegOp::Modify { addr: 0x5802_040C, mask: 3 << 14, value: 1 << 14 }));
    assert_eq!(inp.idr_addr(), 0x5802_0410);
    assert!(inp.is_high(1 << 7));
    assert!(inp.is_low(1 << 6));
}

#[test]
fn input_unchecked_sets_mode_input() {
    let (_, ops) = Pin::<true>::new(Port::A, 9).into_input_unchecked();
    assert_eq!(ops[0], RegOp::Modify { addr: 0x5802_44E0, mask: 1, value: 1 });
    assert_eq!(ops[1], RegOp::Read { addr: 0x5802_44E0 });
    assert_eq!(ops[2], RegOp::Modify { addr: 0x5802_0000, mask: 3 << 18, value: 0 });
}

#[test]
fn init_clocks_enables_all_ports() {
    assert_eq!(
        init_clocks(),
        vec![
            RegOp::Modify { addr: 0x5802_44E0, mask: 0x7FF, value: 0x7FF },
            RegOp::Read { addr: 0x5802_44E0 },
        ]
    );
}

#[test]
fn af_pin_uses_high_afr_for_upper_pads() {
    let ops = configure_af_pin(0x5802_0000, 9, 7);
    assert_eq!(ops[0], RegOp::Modify { addr: 0x5802_0000, mask: 3 << 18, value: 2 << 18 });
    assert_eq!(ops[1], RegOp::Modify { addr: 0x5802_0024, mask: 0xF << 4, value: 7 << 4 });
    let low = configure_af_pin(0x5802_0000, 2, 7);
    assert_eq!(low[1], RegOp::Modify { addr: 0x5802_0020, mask: 0xF << 8, value: 7 << 8 });
}

#[test]
fn board_roles_match_the_carrier() {
    assert_eq!(role(Port::A, 9), PinRole::Hardwired);
    assert_eq!(role(Port::A, 0), PinRole::Expansion);
    assert_eq!(role(Port::E, 2), PinRole::Led);
    assert_eq!(role(Port::E, 6), PinRole::Free);
    assert_eq!(role(Port::K, 3), PinRole::Absent);
    assert_eq!(role(Port::J, 7), PinRole::Free);
    assert_eq!(role(Port::A, 16), PinRole::Absent);
}

#[test]
fn restricted_pads_need_the_allow_flag() {
    assert!(is_restricted(Port::A, 13));
    assert!(requires_allow_flag(Port::A, 13));
    assert!(!is_restricted(Port::E, 4));
    assert!(!requires_allow_flag(Port::E, 4));
    assert!(is_restricted(Port::K, 7));
    for p in 0u8..=10 {
        for n in 0u8..20 {
            let port = Port::from_u8(p).unwrap();
            assert_eq!(is_restricted(port, n), requires_allow_flag(port, n));
        }
    }
}

#[test]
fn led_set_drives_port_e() {
    let on = led::set(led::err(), true);
    assert_eq!(on.last(), Some(&RegOp::Write { addr: 0x5802_1018, value: 1 << 4 }));
    let off = led::set(led::run(), false);
    assert_eq!(off.last(), Some(&RegOp::Write { addr: 0x5802_1018, value: 1 << 18 }));
    assert_eq!(led::init().len(), 4 * 7);
    // Any free pad can be driven the same way.
    let other = led::set(PK2(), true);
    assert_eq!(other.last(), Some(&RegOp::Write { addr: 0x5802_2818, value: 1 << 2 }));
}

#[test]
fn named_pads_carry_their_restriction() {
    let tx = PA9();
    assert_eq!((tx.port, tx.num), (Port::A, 9));
    assert!(is_restricted(tx.port, tx.num));
    let k = PK2();
    assert_eq!((k.port, k.num), (Port::K, 2));
    assert!(!is_restricted(k.port, k.num));
}

#[test]
fn clock_tree_values() {
    assert_eq!(sysclk_hz(), 480_000_000);
    assert_eq!(hpre_divisor(0), 1);
    assert_eq!(hpre_divisor(0x8), 2);
    assert_eq!(hpre_divisor(0xC), 64);
    assert_eq!(hpre_divisor(0xF), 512);
    assert_eq!(apb2_prescaler(0x4), 2);
    assert_eq!(apb2_prescaler(0x7), 16);
    assert_eq!(apb2_prescaler(0x3), 1);
    assert_eq!(hclk_hz(0x8), 240_000_000);
    assert_eq!(pclk2_hz(0x8, 0x4), 120_000_000);
    assert_eq!(pclk2_hz(0, 0), 480_000_000);
}

#[test]
fn usart_brr_rounds_to_nearest() {
    assert_eq!(usart_brr(120_000_000, 115_200), 1042);
    assert_eq!(usart_brr(64_000_000, 115_200), 556);
    assert_eq!(usart_brr(10, 4), 3);
}

#[test]
fn uart_setup_ops() {
    assert_eq!(UART_BAUD, 115_200);
    assert_eq!(
        enable_gpio_clock(gpioa()),
        Some(RegOp::Modify { addr: 0x5802_44E0, mask: 1, value: 1 })
    );
    assert_eq!(enable_gpio_clock(armos::hal::regs::GpioId { base: 0x5802_0400 }), None);
    assert_eq!(enable_usart1_clock(), RegOp::Modify { addr: 0x5802_44F0, mask: 1 << 4, value: 1 << 4 });
    let tx = usart1_tx();
    assert_eq!(tx.port, GpioPort::A);
    assert_eq!(tx.pin, 9);
    assert_eq!(usart1_rx().pin, 10);
    assert_eq!(configure_pin(&tx).len(), 2);
    let cfg = configure_usart1(120_000_000);
    assert_eq!(cfg[0], RegOp::Write { addr: 0x4001_100C, value: 1042 });
    assert_eq!(cfg[1], RegOp::Write { addr: 0x4001_1000, value: 0b1001 });
    let all = init_hw(120_000_000);
    assert_eq!(all.len(), 2 + 2 + 2 + 2);
}

#[test]
fn uart_transmit_path() {
    assert!(tx_ready(1 << 7));
    assert!(!tx_ready(0x7F));
    assert_eq!(tdr_write(b'A'), RegOp::Write { addr: 0x4001_1028, value: 0x41 });
}

#[test]
fn semihost_buffer_truncates_and_terminates() {
    let b = message_buffer(b"hi");
    assert_eq!(&b[..3], &[b'h', b'i', 0]);
    let long = [b'x'; 200];
    let t = message_buffer(&long);
    assert!(t[..95].iter().all(|&c| c == b'x'));
    assert_eq!(t[95], 0);
}

#[test]
fn startup_writes() {
    assert_eq!(set_vtor(0x9000_0000), RegOp::Write { addr: SCB_VTOR, value: 0x9000_0000 });
    let f = enable_fpu();
    assert_eq!(f, RegOp::Modify { addr: CPACR, mask: 0x00F0_0000, value: 0x00F0_0000 });
    assert_eq!(f.apply(0x1), 0x00F0_0001);
}
