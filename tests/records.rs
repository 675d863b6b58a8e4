use gbemu::clock::Clock;
use gbemu::flags::{FlagOps, FlagsRegister};
use gbemu::input::{Button, Input, KeyCode, KeyEvent};
use gbemu::opcodes::{parse_hex_string_u16, OpCode, OpCodeRaw};

#[test]
fn flag_tokens() {
    assert_eq!(FlagOps::from_token("Z"), Some(FlagOps::Dependent));
    assert_eq!(FlagOps::from_token("C"), Some(FlagOps::Dependent));
    assert_eq!(FlagOps::from_token("0"), Some(FlagOps::AlwaysReset));
    assert_eq!(FlagOps::from_token("1"), Some(FlagOps::AlwaysSet));
    assert_eq!(FlagOps::from_token("-"), Some(FlagOps::DoNothing));
    assert_eq!(FlagOps::from_token("x"), None);
    assert_eq!(FlagOps::from_token("ZZ"), None);
    assert_eq!(FlagOps::from_token(""), None);
}

#[test]
fn flags_byte_layout() {
    let f = FlagsRegister { zero: true, negative: false, half_carry: true, carry: false };
    assert_eq!(f.to_byte(), 0xA0);
    let g = FlagsRegister::from_byte(0x5F);
    assert!(!g.zero && g.negative && !g.half_carry && g.carry);
    assert_eq!(g.to_byte() & 0x0F, 0);
    assert_eq!(FlagsRegister::init().to_byte(), 0);
}

#[test]
fn hex_addresses() {
    assert_eq!(parse_hex_string_u16("0x01A0"), Some(0x01A0));
    assert_eq!(parse_hex_string_u16("ff"), Some(0xFF));
    assert_eq!(parse_hex_string_u16("0x0xFFFF"), Some(0xFFFF));
    assert_eq!(parse_hex_string_u16("+10"), Some(0x10));
    assert_eq!(parse_hex_string_u16("0x10000"), None);
    assert_eq!(parse_hex_string_u16("0x"), None);
    assert_eq!(parse_hex_string_u16("0xG1"), None);
    assert_eq!(parse_hex_string_u16("-1"), None);
}

fn raw(addr: &str, cycles: Vec<u8>) -> OpCodeRaw {
    OpCodeRaw {
        mnemonic: "JR".to_string(),
        length: 2,
        cycles,
        flags: [FlagOps::DoNothing, FlagOps::DoNothing, FlagOps::DoNothing, FlagOps::DoNothing],
        addr: addr.to_string(),
        group: "control/br".to_string(),
        operand1: Some("NZ".to_string()),
        operand2: Some("r8".to_string()),
    }
}

#[test]
fn opcode_record_conversion() {
    let op = OpCode::from_raw(raw("0x20", vec![12, 8]), false).unwrap();
    assert_eq!(op.addr, 0x20);
    assert_eq!(op.cycles, (Some(12), Some(8)));
    assert!(!op.prefixed);
    assert_eq!(op.mnemonic, "JR");
    assert_eq!(op.operand1.as_deref(), Some("NZ"));
    let cb = OpCode::from_raw(raw("0x7C", vec![8]), true).unwrap();
    assert!(cb.prefixed);
    assert_eq!(cb.cycles, (Some(8), None));
    assert!(OpCode::from_raw(raw("zz", vec![4]), false).is_none());
}

#[test]
fn key_events_drive_buttons() {
    let mut input = Input::new();
    input.update_from_key_event(KeyEvent { code: KeyCode::Char('z'), pressed: true });
    input.update_from_key_event(KeyEvent { code: KeyCode::Left, pressed: true });
    input.update_from_key_event(KeyEvent { code: KeyCode::Enter, pressed: true });
    input.update_from_key_event(KeyEvent { code: KeyCode::Char('q'), pressed: true });
    assert!(input.a && input.left && input.start);
    assert!(!input.b && !input.right && !input.select);
    input.update_from_key_event(KeyEvent { code: KeyCode::Char('J'), pressed: false });
    assert!(!input.a);
    input.set_button(Button::Select, true);
    assert!(input.select);
}

#[test]
fn joypad_state_bits() {
    let mut input = Input::new();
    assert_eq!(input.get_joypad_state(0x00), 0xCF);
    input.start = true;
    input.right = true;
    assert_eq!(input.get_joypad_state(0x10), 0xD7);
    assert_eq!(input.get_joypad_state(0x20), 0xEE);
    assert_eq!(input.get_joypad_state(0x00), 0xC6);
    assert_eq!(input.get_joypad_state(0x30), 0xFF);
}

#[test]
fn clock_counts_cycles() {
    let mut clock = Clock::new();
    assert_eq!(clock.get_ticks(), 0);
    clock.tick(20);
    clock.tick(4);
    assert_eq!(clock.get_ticks(), 24);
    assert_eq!(clock.speed(), 4_194_304);
}
