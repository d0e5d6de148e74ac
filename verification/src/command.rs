//! The decoder: a pure, total map from 16-bit instruction words to typed
//! commands or a decode error.
//!
//! Dispatch is hierarchical: the top nibble selects a family; families
//! `0x8`, `0xE` and `0xF` resolve the exact operation through a secondary
//! nibble or low byte; family `0x0` has two literal full-word matches
//! (clear screen, return) and every other `0x0` word is an error, since
//! legacy machine-routine calls are unsupported.

use crate::reg::Reg;
use vstd::prelude::*;

verus! {

/// An unrecognized or unsupported instruction word.
#[derive(Debug, Clone, Copy, PartialEq, Eq, Structural)]
pub struct CommandErr;

/// One decoded instruction of the standard CHIP-8 set.
#[derive(Debug, Clone, Copy, PartialEq, Eq, Structural)]
pub enum Command {
    ExecuteMachineRoutine(u16),
    ClearScreen,
    Jump(u16),
    Call(u16),
    Return,
    Skip,
    SkipIfRegVal(Reg, u8),
    SkipIfRegValNot(Reg, u8),
    SkipIfRegEqual(Reg, Reg),
    SkipIfRegNotEqual(Reg, Reg),
    SetVal(Reg, u8),
    AddVal(Reg, u8),
    SetReg(Reg, Reg),
    BinOR(Reg, Reg),
    BinAND(Reg, Reg),
    LogXOR(Reg, Reg),
    AddReg(Reg, Reg),
    SubReg(Reg, Reg),
    SubRegRev(Reg, Reg),
    ShiftLeft(Reg, Reg),
    ShiftRight(Reg, Reg),
    SetIndex(u16),
    JumpWithOffset(u16, Reg),
    Random(Reg, u8),
    Display(Reg, Reg, u8),
    SkipIfKey(Reg),
    SkipIfNotKey(Reg),
    SetRegFromDelayTimer(Reg),
    SetDelayTimerFromReg(Reg),
    SetSoundTimerFromReg(Reg),
    AddIndex(Reg),
    GetKey(Reg),
    Font(Reg),
    BCDConv(Reg),
    Load(Reg),
    Store(Reg),
    LoadWithIndexIncrement(Reg),
    StoreWithIndexIncrement(Reg),
}

/// The register named by the word's second nibble.
pub open spec fn spec_reg_x(w: u16) -> Reg {
    Reg::spec_from_nibble(((w / 256) % 16) as u8)
}

/// The register named by the word's third nibble.
pub open spec fn spec_reg_y(w: u16) -> Reg {
    Reg::spec_from_nibble(((w / 16) % 16) as u8)
}

/// The word's low nibble: a 4-bit immediate.
pub open spec fn spec_val4(w: u16) -> u8 {
    (w % 16) as u8
}

/// The word's low byte: an 8-bit immediate.
pub open spec fn spec_val8(w: u16) -> u8 {
    (w % 256) as u8
}

/// The word's low twelve bits: an address.
pub open spec fn spec_val12(w: u16) -> u16 {
    w % 4096
}

/// The opcode table: every 16-bit word maps to exactly one command or to a
/// decode error.
pub open spec fn spec_decode(w: u16) -> Result<Command, CommandErr> {
    if w == 0x00E0 {
        Ok(Command::ClearScreen)
    } else if w == 0x00EE {
        Ok(Command::Return)
    } else {
        let fam = w / 4096;
        if fam == 0x1 {
            Ok(Command::Jump(spec_val12(w)))
        } else if fam == 0x2 {
            Ok(Command::Call(spec_val12(w)))
        } else if fam == 0x3 {
            Ok(Command::SkipIfRegVal(spec_reg_x(w), spec_val8(w)))
        } else if fam == 0x4 {
            Ok(Command::SkipIfRegValNot(spec_reg_x(w), spec_val8(w)))
        } else if fam == 0x5 {
            Ok(Command::SkipIfRegEqual(spec_reg_x(w), spec_reg_y(w)))
        } else if fam == 0x6 {
            Ok(Command::SetVal(spec_reg_x(w), spec_val8(w)))
        } else if fam == 0x7 {
            Ok(Command::AddVal(spec_reg_x(w), spec_val8(w)))
        } else if fam == 0x8 {
            let sub = w % 16;
            if sub == 0x0 {
                Ok(Command::SetReg(spec_reg_x(w), spec_reg_y(w)))
            } else if sub == 0x1 {
                Ok(Command::BinOR(spec_reg_x(w), spec_reg_y(w)))
            } else if sub == 0x2 {
                Ok(Command::BinAND(spec_reg_x(w), spec_reg_y(w)))
            } else if sub == 0x3 {
                Ok(Command::LogXOR(spec_reg_x(w), spec_reg_y(w)))
            } else if sub == 0x4 {
                Ok(Command::AddReg(spec_reg_x(w), spec_reg_y(w)))
            } else if sub == 0x5 {
                Ok(Command::SubReg(spec_reg_x(w), spec_reg_y(w)))
            } else if sub == 0x6 {
                Ok(Command::ShiftRight(spec_reg_x(w), spec_reg_y(w)))
            } else if sub == 0x7 {
                Ok(Command::SubRegRev(spec_reg_x(w), spec_reg_y(w)))
            } else if sub == 0xE {
                Ok(Command::ShiftLeft(spec_reg_x(w), spec_reg_y(w)))
            } else {
                Err(CommandErr)
            }
        } else if fam == 0x9 {
            Ok(Command::SkipIfRegNotEqual(spec_reg_x(w), spec_reg_y(w)))
        } else if fam == 0xA {
            Ok(Command::SetIndex(spec_val12(w)))
        } else if fam == 0xB {
            Ok(Command::JumpWithOffset(spec_val12(w), Reg::V0))
        } else if fam == 0xC {
            Ok(Command::Random(spec_reg_x(w), spec_val8(w)))
        } else if fam == 0xD {
            Ok(Command::Display(spec_reg_x(w), spec_reg_y(w), spec_val4(w)))
        } else if fam == 0xE {
            let sub = w % 256;
            if sub == 0x9E {
                Ok(Command::SkipIfKey(spec_reg_x(w)))
            } else if sub == 0xA1 {
                Ok(Command::SkipIfNotKey(spec_reg_x(w)))
            } else {
                Err(CommandErr)
            }
        } else if fam == 0xF {
            let sub = w % 256;
            if sub == 0x07 {
                Ok(Command::SetRegFromDelayTimer(spec_reg_x(w)))
            } else if sub == 0x0A {
                Ok(Command::GetKey(spec_reg_x(w)))
            } else if sub == 0x15 {
                Ok(Command::SetDelayTimerFromReg(spec_reg_x(w)))
            } else if sub == 0x18 {
                Ok(Command::SetSoundTimerFromReg(spec_reg_x(w)))
            } else if sub == 0x1E {
                Ok(Command::AddIndex(spec_reg_x(w)))
            } else if sub == 0x29 {
                Ok(Command::Font(spec_reg_x(w)))
            } else if sub == 0x33 {
                Ok(Command::BCDConv(spec_reg_x(w)))
            } else if sub == 0x55 {
                Ok(Command::Store(spec_reg_x(w)))
            } else if sub == 0x65 {
                Ok(Command::Load(spec_reg_x(w)))
            } else {
                Err(CommandErr)
            }
        } else {
            Err(CommandErr)
        }
    }
}

/// A raw 16-bit instruction word, awaiting decoding.
#[derive(Debug, Clone, Copy, PartialEq, Eq, Structural)]
pub struct RawCommand(pub u16);

impl RawCommand {
    /// The register named by the word's second nibble.
    fn reg_x(self) -> (r: Reg)
        ensures
            r == spec_reg_x(self.0),
    {
        Reg::from_nibble(((self.0 / 256) % 16) as u8)
    }

    /// The register named by the word's third nibble.
    fn reg_y(self) -> (r: Reg)
        ensures
            r == spec_reg_y(self.0),
    {
        Reg::from_nibble(((self.0 / 16) % 16) as u8)
    }

    /// The word's low nibble: a 4-bit immediate.
    fn val4(self) -> (v: u8)
        ensures
            v == spec_val4(self.0),
    {
        (self.0 % 16) as u8
    }

    /// The word's low byte: an 8-bit immediate.
    fn val8(self) -> (v: u8)
        ensures
            v == spec_val8(self.0),
    {
        (self.0 % 256) as u8
    }

    /// The word's low twelve bits: an address.
    fn val12(self) -> (v: u16)
        ensures
            v == spec_val12(self.0),
    {
        self.0 % 4096
    }

    /// Decodes the word against the opcode table. Total: every word yields
    /// either a command or a decode error.
    pub fn decode(&self) -> (r: Result<Command, CommandErr>)
        ensures
            r == spec_decode(self.0),
    {
        let w = self.0;
        if w == 0x00E0 {
            return Ok(Command::ClearScreen);
        }
        if w == 0x00EE {
            return Ok(Command::Return);
        }
        match w / 4096 {
            0x1 => Ok(Command::Jump(self.val12())),
            0x2 => Ok(Command::Call(self.val12())),
            0x3 => Ok(Command::SkipIfRegVal(self.reg_x(), self.val8())),
            0x4 => Ok(Command::SkipIfRegValNot(self.reg_x(), self.val8())),
            0x5 => Ok(Command::SkipIfRegEqual(self.reg_x(), self.reg_y())),
            0x6 => Ok(Command::SetVal(self.reg_x(), self.val8())),
            0x7 => Ok(Command::AddVal(self.reg_x(), self.val8())),
            0x8 => match w % 16 {
                0x0 => Ok(Command::SetReg(self.reg_x(), self.reg_y())),
                0x1 => Ok(Command::BinOR(self.reg_x(), self.reg_y())),
                0x2 => Ok(Command::BinAND(self.reg_x(), self.reg_y())),
                0x3 => Ok(Command::LogXOR(self.reg_x(), self.reg_y())),
                0x4 => Ok(Command::AddReg(self.reg_x(), self.reg_y())),
                0x5 => Ok(Command::SubReg(self.reg_x(), self.reg_y())),
                0x6 => Ok(Command::ShiftRight(self.reg_x(), self.reg_y())),
                0x7 => Ok(Command::SubRegRev(self.reg_x(), self.reg_y())),
                0xE => Ok(Command::ShiftLeft(self.reg_x(), self.reg_y())),
                _ => Err(CommandErr),
            },
            0x9 => Ok(Command::SkipIfRegNotEqual(self.reg_x(), self.reg_y())),
            0xA => Ok(Command::SetIndex(self.val12())),
            0xB => Ok(Command::JumpWithOffset(self.val12(), Reg::V0)),
            0xC => Ok(Command::Random(self.reg_x(), self.val8())),
            0xD => Ok(Command::Display(self.reg_x(), self.reg_y(), self.val4())),
            0xE => match w % 256 {
                0x9E => Ok(Command::SkipIfKey(self.reg_x())),
                0xA1 => Ok(Command::SkipIfNotKey(self.reg_x())),
                _ => Err(CommandErr),
            },
            0xF => match w % 256 {
                0x07 => Ok(Command::SetRegFromDelayTimer(self.reg_x())),
                0x0A => Ok(Command::GetKey(self.reg_x())),
                0x15 => Ok(Command::SetDelayTimerFromReg(self.reg_x())),
                0x18 => Ok(Command::SetSoundTimerFromReg(self.reg_x())),
                0x1E => Ok(Command::AddIndex(self.reg_x())),
                0x29 => Ok(Command::Font(self.reg_x())),
                0x33 => Ok(Command::BCDConv(self.reg_x())),
                0x55 => Ok(Command::Store(self.reg_x())),
                0x65 => Ok(Command::Load(self.reg_x())),
                _ => Err(CommandErr),
            },
            _ => Err(CommandErr),
        }
    }
}

/// Decode totality: every word yields a command or a decode error, and the
/// two literal full-word matches of family zero are the only zero-family
/// words accepted.
pub proof fn lemma_decode_total(w: u16)
    ensures
        spec_decode(w) matches Ok(_) || spec_decode(w) matches Err(_),
        w / 4096 == 0 && w != 0x00E0 && w != 0x00EE ==> spec_decode(w) == Result::<
            Command,
            CommandErr,
        >::Err(CommandErr),
{
}

} // verus!
