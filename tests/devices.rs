use breadboard::breadboard_system::{BreadboardSystem, SystemBus};
use breadboard::bus::Bus;
use breadboard::controller::{Button, SNESController};
use breadboard::display::{RegisterSelector, State, HD44780U};
use breadboard::fault::Fault;
use breadboard::periph::W65C22;
use breadboard::ports::{Peripherals, Port};
use breadboard::ram::RAM;
use breadboard::rom::ROM;

fn rom_of_nops() -> ROM {
    ROM::new(vec![0xEAu8; 0x8000]).expect("a full ROM image")
}

fn adapter() -> W65C22 {
    W65C22::new(Peripherals::new())
}

#[test]
fn ram_write_then_read() {
    let mut ram = RAM::new(16);
    assert_eq!(ram.read(3), 0);
    ram.write(3, 0xAB);
    assert_eq!(ram.read(3), 0xAB);
    assert_eq!(ram.peek(3), 0xAB);
    assert_eq!(ram.peek(4), 0);
}

#[test]
fn rom_refuses_writes() {
    let mut image = vec![0u8; 0x8000];
    image[5] = 0x77;
    let mut rom = ROM::new(image).unwrap();
    assert_eq!(rom.write(5, 0x11), Err(Fault::RomWrite(5)));
    assert_eq!(rom.read(5), 0x77);
    assert!(ROM::new(vec![0u8; 100]).is_none());
}

#[test]
fn bus_routes_by_selector() {
    let mut image = vec![0u8; 0x8000];
    image[0x7FFC] = 0x00;
    image[0x7FFD] = 0x80;
    image[0x0001] = 0x5A;
    let mut bus = SystemBus::new(ROM::new(image).unwrap());
    assert_eq!(bus.read(0x8001), 0x5A);
    assert_eq!(bus.read(0xFFFD), 0x80);
    bus.write(0x1234, 0x99);
    assert_eq!(bus.read(0x1234), 0x99);
    assert_eq!(bus.peek(0x1234), 0x99);
    assert_eq!(bus.ram.peek(0x1234), 0x99);
    assert!(bus.fault.is_none());
}

#[test]
fn bus_rom_write_is_fatal() {
    let mut bus = SystemBus::new(rom_of_nops());
    bus.write(0x9000, 0x01);
    assert_eq!(bus.fault, Some(Fault::RomWrite(0x9000)));
    assert_eq!(bus.peek(0x9000), 0xEA);
}

#[test]
fn bus_unmapped_address_is_fatal() {
    let mut bus = SystemBus::new(rom_of_nops());
    assert_eq!(bus.read(0x5000), 0);
    assert_eq!(bus.fault, Some(Fault::UnmappedAddress(0x5000)));
    let mut bus = SystemBus::new(rom_of_nops());
    bus.write(0x6010, 1);
    assert_eq!(bus.fault, Some(Fault::UnmappedAddress(0x6010)));
}

#[test]
fn bus_reaches_adapter() {
    let mut bus = SystemBus::new(rom_of_nops());
    bus.write(0x6002, 0xF0);
    assert_eq!(bus.per.ddrb, 0xF0);
    assert_eq!(bus.read(0x6002), 0xF0);
    bus.read(0x6008);
    assert_eq!(bus.fault, Some(Fault::UnsupportedRead(0x8)));
}

#[test]
fn peek_does_not_acknowledge_timer_interrupt() {
    let mut bus = SystemBus::new(rom_of_nops());
    bus.write(0x600E, 0xC0);
    bus.per.cycle().unwrap();
    assert_ne!(bus.per.ifr & 0x40, 0);
    let _ = bus.peek(0x6004);
    assert_ne!(bus.per.ifr & 0x40, 0);
    let _ = bus.read(0x6004);
    assert_eq!(bus.per.ifr & 0x40, 0);
    assert_eq!(bus.per.ifr & 0x80, 0);
}

#[test]
fn timer_one_interrupt() {
    let mut via = adapter();
    via.write(0xE, 0xC0).unwrap();
    via.write(0xB, 0x40).unwrap();
    via.write(0x6, 0x03).unwrap();
    via.write(0x7, 0x00).unwrap();
    let mut irq = false;
    for _ in 0..4 {
        irq = via.cycle().unwrap();
    }
    assert!(irq);
    assert_ne!(via.ifr & 0x40, 0);
    assert_ne!(via.ifr & 0x80, 0);
    via.write(0xE, 0x00).unwrap();
    assert_eq!(via.ifr & 0x80, 0);
    assert!(!via.cycle().unwrap());
}

#[test]
fn timer_one_interrupt_reaches_cpu() {
    let mut sys = BreadboardSystem::new(rom_of_nops());
    sys.cpu.bus.write(0x600E, 0xC0);
    sys.cpu.bus.write(0x600B, 0x40);
    sys.cpu.bus.write(0x6006, 0x03);
    sys.cpu.bus.write(0x6007, 0x00);
    for _ in 0..4 {
        sys.cycle();
    }
    assert!(sys.cpu.interrupt);
    assert_ne!(sys.get_peripheral_controller().ifr & 0x80, 0);
    sys.cpu.bus.write(0x600E, 0x00);
    sys.cycle();
    assert!(!sys.cpu.interrupt);
}

#[test]
fn timer_one_shot_and_load() {
    let mut via = adapter();
    via.write(0x4, 0x02).unwrap();
    via.write(0x5, 0x00).unwrap();
    assert_eq!(via.t1c, 0x0002);
    assert_eq!(via.read(0x4), Ok(0x02));
    via.cycle().unwrap();
    via.cycle().unwrap();
    assert_eq!(via.ifr & 0x40, 0);
    via.cycle().unwrap();
    assert_ne!(via.ifr & 0x40, 0);
    assert_eq!(via.ifr & 0x80, 0);
    assert_eq!(via.t1c, 0);
}

#[test]
fn timer_pb7_modes_are_unsupported() {
    let mut via = adapter();
    via.write(0xB, 0x80).unwrap();
    assert_eq!(via.cycle(), Err(Fault::UnsupportedTimerMode(2)));
}

#[test]
fn adapter_unsupported_registers() {
    let mut via = adapter();
    assert_eq!(via.write(0x1, 0), Err(Fault::UnsupportedWrite(0x1)));
    assert_eq!(via.write(0xC, 0), Err(Fault::UnsupportedWrite(0xC)));
    assert_eq!(via.read(0xB), Err(Fault::UnsupportedRead(0xB)));
    assert_eq!(via.peek(0x9), Err(Fault::UnsupportedRead(0x9)));
}

#[test]
fn interrupt_flags_clear_on_write_one() {
    let mut via = adapter();
    via.write(0xE, 0x40).unwrap();
    via.cycle().unwrap();
    assert_eq!(via.ifr, 0xC0);
    via.write(0xD, 0x40).unwrap();
    assert_eq!(via.ifr, 0x00);
}

#[test]
fn port_b_latches_on_cb1_edge() {
    let mut via = adapter();
    via.acr = 0x02;
    via.pcr = 0x10;
    via.ports.a_cache = 0x40;
    via.set_cb1(true).unwrap();
    assert_eq!(via.irb, via.ports.peek(Port::B).unwrap());
}

fn strobe(dsp: &mut HD44780U, rs: RegisterSelector, val: u8) {
    dsp.write(rs, false, true, val);
    dsp.write(rs, false, false, val);
}

#[test]
fn display_writes_on_falling_edge() {
    let mut dsp = HD44780U::new();
    dsp.write(RegisterSelector::Data, false, false, b'H');
    assert_eq!(dsp.addr, 0);
    dsp.write(RegisterSelector::Data, false, true, b'H');
    assert_eq!(dsp.addr, 0);
    dsp.write(RegisterSelector::Data, false, false, b'H');
    assert_eq!(dsp.addr, 1);
    assert_eq!(dsp.line1[0], b'H');
    assert!(matches!(dsp.state, State::Busy(37)));
    assert!(dsp.get_updated());
    assert!(!dsp.get_updated());
}

#[test]
fn display_output_and_commands() {
    let mut dsp = HD44780U::new();
    for c in b"Hi" {
        strobe(&mut dsp, RegisterSelector::Data, *c);
    }
    strobe(&mut dsp, RegisterSelector::Instruction, 0x80 | 0x40);
    assert_eq!(dsp.addr, 0x40);
    strobe(&mut dsp, RegisterSelector::Data, b'!');
    let (l1, l2) = dsp.get_output();
    assert_eq!(l1, "Hi              ");
    assert_eq!(l2, "!               ");
    strobe(&mut dsp, RegisterSelector::Instruction, 0x02);
    assert_eq!(dsp.addr, 0);
    strobe(&mut dsp, RegisterSelector::Instruction, 0x01);
    let (l1, _) = dsp.get_output();
    assert_eq!(l1, "                ");
    assert_eq!(dsp.line1[0], 0x20);
}

#[test]
fn display_address_wraps_between_lines() {
    let mut dsp = HD44780U::new();
    strobe(&mut dsp, RegisterSelector::Instruction, 0x80 | 39);
    strobe(&mut dsp, RegisterSelector::Data, b'a');
    assert_eq!(dsp.addr, 40);
    strobe(&mut dsp, RegisterSelector::Data, b'b');
    assert_eq!(dsp.addr, 0x40);
    strobe(&mut dsp, RegisterSelector::Instruction, 0x80 | 0x67);
    assert_eq!(dsp.addr, 0x67 % 80);
    strobe(&mut dsp, RegisterSelector::Instruction, 0x80 | 0x4F);
    assert_eq!(dsp.addr, 0x4F);
    strobe(&mut dsp, RegisterSelector::Data, b'c');
    for _ in 0..25 {
        strobe(&mut dsp, RegisterSelector::Data, b'd');
    }
    assert_eq!(dsp.addr, 0);
    assert_eq!(dsp.line2[0x0F], b'c');
    assert_eq!(dsp.line2[0x27], b'd');
}

#[test]
fn display_busy_flag_and_reads() {
    let mut dsp = HD44780U::new();
    assert_eq!(dsp.read(RegisterSelector::Instruction, true, true), Ok(0x80));
    for _ in 0..151 {
        dsp.cycle();
    }
    assert!(matches!(dsp.state, State::Idle));
    assert_eq!(dsp.read(RegisterSelector::Instruction, true, true), Ok(0x00));
    assert_eq!(dsp.read(RegisterSelector::Data, true, true), Ok(0x20));
    assert_eq!(dsp.peek(RegisterSelector::Data, false, true), Err(Fault::DisplayReadWithoutRw));
}

#[test]
fn controller_shifts_latched_buttons() {
    let mut con = SNESController::new();
    con.on_press(Button::B);
    con.write(true, false);
    con.write(true, false);
    assert_eq!(con.read(), 1);
    con.write(false, true);
    assert_eq!(con.read(), 0);
    con.write(false, true);
    assert_eq!(con.peek(), 1);
    con.on_release(Button::B);
    assert_eq!(con.state, 0xFF);
}

#[test]
fn controller_wired_to_port_a() {
    let mut p = Peripherals::new();
    p.con.on_press(Button::A);
    p.write(Port::A, 0x02);
    p.write(Port::A, 0x02);
    assert_eq!(p.read(Port::A), Ok(0));
    p.write(Port::A, 0x04);
    assert_eq!(p.read(Port::A), Ok(1));
}

#[test]
fn display_wired_to_ports() {
    let mut p = Peripherals::new();
    p.write(Port::B, b'Z');
    p.write(Port::A, 0x20 | 0x80);
    p.write(Port::A, 0x20);
    assert_eq!(p.dsp.line1[0], b'Z');
    p.write(Port::A, 0x40);
    assert_eq!(p.read(Port::B), Ok(0x81));
}

#[test]
fn board_boots_from_rom_and_halts_on_fault() {
    let mut image = vec![0xEAu8; 0x8000];
    // reset vector 0x8000; at 0x8000: STA $9000 (write to ROM)
    image[0x7FFC] = 0x00;
    image[0x7FFD] = 0x80;
    image[0] = 0x8D;
    image[1] = 0x00;
    image[2] = 0x90;
    let mut sys = BreadboardSystem::new(ROM::new(image).unwrap());
    for _ in 0..7 {
        sys.cycle();
    }
    assert_eq!(sys.cpu.pc, 0x8000);
    for _ in 0..4 {
        sys.cycle();
    }
    assert!(sys.is_halted());
    assert_eq!(sys.fault(), Some(Fault::RomWrite(0x9000)));
    assert_eq!(sys.peek(0x9000), 0xEA);
}

#[test]
fn board_buttons_reach_controller() {
    let mut sys = BreadboardSystem::new(rom_of_nops());
    sys.press(Button::Start);
    assert_eq!(sys.get_controller().state, 0xF7);
    sys.release(Button::Start);
    assert_eq!(sys.get_controller().state, 0xFF);
    assert!(!sys.take_display_update());
}

#[test]
fn every_address_has_at_most_one_device() {
    for addr in 0..=0xFFFFu16 {
        let mapped = addr < 0x4000 || (0x6000..0x6010).contains(&addr) || addr >= 0x8000;
        let mut bus = SystemBus::new(rom_of_nops());
        let _ = bus.read(addr);
        match bus.fault {
            Some(Fault::UnmappedAddress(a)) => {
                assert!(!mapped);
                assert_eq!(a, addr);
            }
            Some(Fault::UnsupportedRead(_)) | Some(Fault::DisplayReadWithoutRw) => {
                assert!((0x6000..0x6010).contains(&addr))
            }
            Some(other) => panic!("unexpected fault {:?}", other),
            None => assert!(mapped),
        }
    }
}

#[test]
fn interrupt_summary_tracks_enabled_flags() {
    let mut via = adapter();
    let check = |v: &W65C22| {
        assert_eq!(v.ifr & 0x80 != 0, v.ifr & v.ier & 0x7F != 0);
    };
    check(&via);
    via.cycle().unwrap();
    check(&via);
    assert_eq!(via.ifr, 0x40);
    via.write(0xE, 0x40).unwrap();
    check(&via);
    assert_eq!(via.ifr, 0xC0);
    via.write(0xE, 0x20).unwrap();
    check(&via);
    assert_eq!(via.ifr, 0x40);
    via.write(0xE, 0x7F).unwrap();
    let _ = via.read(0x6);
    check(&via);
    assert_eq!(via.ifr, 0x00);
}
