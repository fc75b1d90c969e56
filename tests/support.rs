use breadboard::alu::{
    add_binary, add_decimal, compare_flags, rotate_left, rotate_right, shift_left, shift_right,
    subtract_decimal, CARRY, NEGATIVE, OVERFLOW, ZERO,
};
use breadboard::controller::Button;
use breadboard::cpu::Instruction;
use breadboard::debugger::{
    add_breakpoint, at_breakpoint, button_for_key, depth_after, get_flag_string, on_breakpoint,
    parse_hex_address, remove_breakpoint, should_stop, step_over_target,
};

#[test]
fn flag_string_shows_set_bits() {
    assert_eq!(get_flag_string(0x00), "--------");
    assert_eq!(get_flag_string(0x83), "N-----ZC");
    assert_eq!(get_flag_string(0xFF), "NO-BDIZC");
}

#[test]
fn hex_addresses_parse() {
    assert_eq!(parse_hex_address(b"1234"), Some(0x1234));
    assert_eq!(parse_hex_address(b"fFfF"), Some(0xFFFF));
    assert_eq!(parse_hex_address(b"0"), Some(0));
    assert_eq!(parse_hex_address(b"00001234"), Some(0x1234));
    assert_eq!(parse_hex_address(b""), None);
    assert_eq!(parse_hex_address(b"12g4"), None);
    assert_eq!(parse_hex_address(b"10000"), None);
}

#[test]
fn breakpoints_are_unique_and_removable() {
    let mut bps = Vec::new();
    assert_eq!(add_breakpoint(&mut bps, 0x8000), 0);
    assert_eq!(add_breakpoint(&mut bps, 0x9000), 1);
    assert_eq!(add_breakpoint(&mut bps, 0x8000), 0);
    assert_eq!(bps, vec![0x8000, 0x9000]);
    assert!(at_breakpoint(&bps, 0x9001));
    assert!(!at_breakpoint(&bps, 0x9000));
    assert!(remove_breakpoint(&mut bps, 0));
    assert!(!remove_breakpoint(&mut bps, 5));
    assert_eq!(bps, vec![0x9000]);
}

#[test]
fn run_loop_stops() {
    let bps = vec![0x1000u16];
    assert!(should_stop(true, 0x0, &bps, false));
    assert!(should_stop(false, 0x1001, &bps, false));
    assert!(should_stop(false, 0x2000, &bps, true));
    assert!(!should_stop(false, 0x2000, &bps, false));
    assert_eq!(on_breakpoint(0), (true, 0));
    assert_eq!(on_breakpoint(3), (false, 2));
}

#[test]
fn stepping_decisions() {
    assert_eq!(step_over_target(Instruction::JSR, 0x0401), Some(0x0403));
    assert_eq!(step_over_target(Instruction::LDA, 0x0401), None);
    assert_eq!(depth_after(0, Instruction::JSR), 1);
    assert_eq!(depth_after(0, Instruction::RTS), -1);
    assert_eq!(depth_after(2, Instruction::NOP(1, 2)), 2);
}

#[test]
fn keys_map_to_buttons() {
    assert_eq!(button_for_key('w'), Some(Button::Up));
    assert_eq!(button_for_key(';'), Some(Button::Start));
    assert_eq!(button_for_key('j'), Some(Button::A));
    assert_eq!(button_for_key('x'), None);
}

#[test]
fn alu_binary_add() {
    assert_eq!(add_binary(0x50, 0x50, 0), (0xA0, OVERFLOW | NEGATIVE));
    assert_eq!(add_binary(0xFF, 0x01, 0), (0x00, ZERO | CARRY));
    assert_eq!(add_binary(0x01, 0x01, CARRY), (0x03, 0));
}

#[test]
fn alu_decimal_add_and_subtract() {
    assert_eq!(add_decimal(0x15, 0x27, 0).0, 0x42);
    let (a, p) = add_decimal(0x99, 0x01, 0);
    assert_eq!(a, 0x00);
    assert_ne!(p & CARRY, 0);
    let (a, p) = subtract_decimal(0x42, 0x15, CARRY);
    assert_eq!(a, 0x27);
    assert_ne!(p & CARRY, 0);
    let (a, p) = subtract_decimal(0x15, 0x27, CARRY);
    assert_eq!(a, 0x88);
    assert_eq!(p & CARRY, 0);
}

#[test]
fn alu_compare_and_shifts() {
    assert_eq!(compare_flags(0x10, 0x10, 0), ZERO | CARRY);
    assert_eq!(compare_flags(0x10, 0x20, 0), NEGATIVE);
    assert_eq!(shift_left(0x81, 0), (0x02, CARRY));
    assert_eq!(shift_right(0x01, 0), (0x00, ZERO | CARRY));
    assert_eq!(rotate_left(0x80, CARRY), (0x01, CARRY));
    assert_eq!(rotate_right(0x01, CARRY), (0x80, CARRY | NEGATIVE));
}
