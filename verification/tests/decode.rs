use chip8emu::command::{Command, CommandErr, RawCommand};
use chip8emu::reg::Reg;

#[test]
fn decode_clear_screen_and_return() {
    assert_eq!(RawCommand(0x00E0).decode(), Ok(Command::ClearScreen));
    assert_eq!(RawCommand(0x00EE).decode(), Ok(Command::Return));
}

#[test]
fn decode_rejects_machine_routine_calls() {
    assert_eq!(RawCommand(0x0000).decode(), Err(CommandErr));
    assert_eq!(RawCommand(0x0123).decode(), Err(CommandErr));
    assert_eq!(RawCommand(0x0FFF).decode(), Err(CommandErr));
}

#[test]
fn decode_control_flow() {
    assert_eq!(RawCommand(0x1ABC).decode(), Ok(Command::Jump(0xABC)));
    assert_eq!(RawCommand(0x2123).decode(), Ok(Command::Call(0x123)));
    assert_eq!(
        RawCommand(0xB234).decode(),
        Ok(Command::JumpWithOffset(0x234, Reg::V0))
    );
}

#[test]
fn decode_conditional_skips() {
    assert_eq!(
        RawCommand(0x3A42).decode(),
        Ok(Command::SkipIfRegVal(Reg::VA, 0x42))
    );
    assert_eq!(
        RawCommand(0x4B07).decode(),
        Ok(Command::SkipIfRegValNot(Reg::VB, 0x07))
    );
    assert_eq!(
        RawCommand(0x5120).decode(),
        Ok(Command::SkipIfRegEqual(Reg::V1, Reg::V2))
    );
    assert_eq!(
        RawCommand(0x9340).decode(),
        Ok(Command::SkipIfRegNotEqual(Reg::V3, Reg::V4))
    );
}

#[test]
fn decode_loads_and_alu() {
    assert_eq!(RawCommand(0x60FF).decode(), Ok(Command::SetVal(Reg::V0, 0xFF)));
    assert_eq!(RawCommand(0x7101).decode(), Ok(Command::AddVal(Reg::V1, 0x01)));
    assert_eq!(RawCommand(0x8120).decode(), Ok(Command::SetReg(Reg::V1, Reg::V2)));
    assert_eq!(RawCommand(0x8341).decode(), Ok(Command::BinOR(Reg::V3, Reg::V4)));
    assert_eq!(RawCommand(0x8562).decode(), Ok(Command::BinAND(Reg::V5, Reg::V6)));
    assert_eq!(RawCommand(0x8783).decode(), Ok(Command::LogXOR(Reg::V7, Reg::V8)));
    assert_eq!(RawCommand(0x8014).decode(), Ok(Command::AddReg(Reg::V0, Reg::V1)));
    assert_eq!(RawCommand(0x8235).decode(), Ok(Command::SubReg(Reg::V2, Reg::V3)));
    assert_eq!(RawCommand(0x8456).decode(), Ok(Command::ShiftRight(Reg::V4, Reg::V5)));
    assert_eq!(RawCommand(0x8677).decode(), Ok(Command::SubRegRev(Reg::V6, Reg::V7)));
    assert_eq!(RawCommand(0x889E).decode(), Ok(Command::ShiftLeft(Reg::V8, Reg::V9)));
}

#[test]
fn decode_rejects_unknown_alu_subcodes() {
    assert_eq!(RawCommand(0x8128).decode(), Err(CommandErr));
    assert_eq!(RawCommand(0x812F).decode(), Err(CommandErr));
}

#[test]
fn decode_index_random_and_draw() {
    assert_eq!(RawCommand(0xA2F0).decode(), Ok(Command::SetIndex(0x2F0)));
    assert_eq!(RawCommand(0xC577).decode(), Ok(Command::Random(Reg::V5, 0x77)));
    assert_eq!(
        RawCommand(0xD015).decode(),
        Ok(Command::Display(Reg::V0, Reg::V1, 5))
    );
}

#[test]
fn decode_key_skips() {
    assert_eq!(RawCommand(0xE29E).decode(), Ok(Command::SkipIfKey(Reg::V2)));
    assert_eq!(RawCommand(0xE3A1).decode(), Ok(Command::SkipIfNotKey(Reg::V3)));
    assert_eq!(RawCommand(0xE200).decode(), Err(CommandErr));
}

#[test]
fn decode_misc_family() {
    assert_eq!(RawCommand(0xF107).decode(), Ok(Command::SetRegFromDelayTimer(Reg::V1)));
    assert_eq!(RawCommand(0xF20A).decode(), Ok(Command::GetKey(Reg::V2)));
    assert_eq!(RawCommand(0xF315).decode(), Ok(Command::SetDelayTimerFromReg(Reg::V3)));
    assert_eq!(RawCommand(0xF418).decode(), Ok(Command::SetSoundTimerFromReg(Reg::V4)));
    assert_eq!(RawCommand(0xF51E).decode(), Ok(Command::AddIndex(Reg::V5)));
    assert_eq!(RawCommand(0xF629).decode(), Ok(Command::Font(Reg::V6)));
    assert_eq!(RawCommand(0xF733).decode(), Ok(Command::BCDConv(Reg::V7)));
    assert_eq!(RawCommand(0xF855).decode(), Ok(Command::Store(Reg::V8)));
    assert_eq!(RawCommand(0xF965).decode(), Ok(Command::Load(Reg::V9)));
    assert_eq!(RawCommand(0xF000).decode(), Err(CommandErr));
    assert_eq!(RawCommand(0xFFFF).decode(), Err(CommandErr));
}

#[test]
fn decode_is_total_over_all_words() {
    let mut ok_count: u32 = 0;
    let mut err_count: u32 = 0;
    for w in 0..=0xFFFFu16 {
        match RawCommand(w).decode() {
            Ok(_) => ok_count += 1,
            Err(CommandErr) => err_count += 1,
        }
    }
    assert_eq!(ok_count + err_count, 65536);
    // The two zero-family literals decode; every other zero-family word is
    // an error, so strictly fewer than one sixteenth of all words decode
    // to the zero family.
    assert!(ok_count > 0);
    assert!(err_count > 0);
}
