//! The engine: fetch, decode and execute, one instruction per step.
//!
//! The machine owns the program counter, the index register and every state
//! container. Each step reads two big-endian bytes at the program counter,
//! advances it by two, decodes the word and executes the command. Every
//! transition is specified by [`spec_step`] over the mathematical model
//! [`MachineModel`] of the machine.

use crate::command::spec_decode;
use crate::command::Command;
use crate::command::CommandErr;
use crate::command::RawCommand;
use crate::display::spec_collision;
use crate::display::spec_draw;
use crate::display::DisplayErr;
use crate::display::MachDisplay;
use crate::key::spec_first_pressed;
use crate::key::Key;
use crate::key::KeyBank;
use crate::memory::spec_write;
use crate::memory::Memory;
use crate::memory::MemoryErr;
use crate::reg::Reg;
use crate::reg::RegBank;
use crate::stack::Stack;
use crate::stack::StackErr;
use crate::timer::spec_tick;
use crate::timer::Timer;
use vstd::prelude::*;

verus! {

/// Why a step failed: an unsupported instruction word, an access outside
/// the allocated memory, or a return with an empty call stack. All three
/// are fatal to the run and surface as values; arithmetic overflow and
/// underflow are never errors.
#[derive(Debug, Clone, Copy, PartialEq, Eq, Structural)]
pub enum MachineErr {
    Decode(CommandErr),
    Memory(MemoryErr),
    StackUnderflow(StackErr),
}

/// The mathematical model of the machine: every contract of [`Machine`] is
/// stated over this value.
#[verifier::ext_equal]
pub struct MachineModel {
    /// Program counter.
    pub pc: u16,
    /// Index register, a 16-bit memory pointer.
    pub index: u16,
    /// The bytes of memory.
    pub mem: Seq<u8>,
    /// The sixteen general-purpose registers.
    pub regs: Seq<u8>,
    /// The call stack of return addresses.
    pub stack: Seq<u16>,
    /// The delay timer count.
    pub delay: u8,
    /// The sound timer count.
    pub sound: u8,
    /// The sixteen key-pressed flags.
    pub keys: Seq<bool>,
    /// The pixel grid, row by row.
    pub screen: Seq<Seq<bool>>,
    /// The grid width in pixels.
    pub width: int,
    /// The grid height in pixels.
    pub height: int,
}

/// 16-bit wraparound of `a + b`.
pub open spec fn wrap_add16(a: int, b: int) -> u16 {
    ((a + b) % 0x10000) as u16
}

/// The program counter rolled back by two, with 16-bit wraparound.
pub open spec fn wrap_sub2(pc: u16) -> u16 {
    ((pc - 2 + 0x10000) % 0x10000) as u16
}

/// `mem` with registers `0 ..= count - 1` stored at offset `base`.
pub open spec fn spec_block_store(mem: Seq<u8>, base: int, regs: Seq<u8>, count: int) -> Seq<u8> {
    Seq::new(mem.len(), |i: int| if base <= i < base + count {
        regs[i - base]
    } else {
        mem[i]
    })
}

/// `regs` with registers `0 ..= count - 1` loaded from `mem` at offset
/// `base`.
pub open spec fn spec_block_load(regs: Seq<u8>, mem: Seq<u8>, base: int, count: int) -> Seq<u8> {
    Seq::new(regs.len(), |i: int| if 0 <= i < count {
        mem[base + i]
    } else {
        regs[i]
    })
}

/// A fully cleared screen of the model's dimensions.
pub open spec fn spec_clear_screen(width: int, height: int) -> Seq<Seq<bool>> {
    Seq::new(height as nat, |y: int| Seq::new(width as nat, |x: int| false))
}

/// Executes one decoded command against model `m`, whose program counter
/// has already advanced past the instruction. Returns the next model and
/// the step outcome; on an error the model is returned unchanged.
///
/// `rand` is the uniform random byte injected by the driver for the
/// random-byte instruction.
pub open spec fn spec_execute(m: MachineModel, cmd: Command, rand: u8) -> (MachineModel, Result<
    (),
    MachineErr,
>) {
    match cmd {
        Command::ExecuteMachineRoutine(_) => (m, Err(MachineErr::Decode(CommandErr))),
        Command::ClearScreen => (
            MachineModel { screen: spec_clear_screen(m.width, m.height), ..m },
            Ok(()),
        ),
        Command::Jump(addr) => (MachineModel { pc: addr, ..m }, Ok(())),
        Command::Call(addr) => (
            MachineModel { stack: m.stack.push(m.pc), pc: addr, ..m },
            Ok(()),
        ),
        Command::Return => {
            if m.stack.len() == 0 {
                (m, Err(MachineErr::StackUnderflow(StackErr)))
            } else {
                (MachineModel { pc: m.stack.last(), stack: m.stack.drop_last(), ..m }, Ok(()))
            }
        },
        Command::Skip => (MachineModel { pc: wrap_add16(m.pc as int, 2), ..m }, Ok(())),
        Command::SkipIfRegVal(x, v) => (
            MachineModel {
                pc: if m.regs[x.idx()] == v {
                    wrap_add16(m.pc as int, 2)
                } else {
                    m.pc
                },
                ..m
            },
            Ok(()),
        ),
        Command::SkipIfRegValNot(x, v) => (
            MachineModel {
                pc: if m.regs[x.idx()] != v {
                    wrap_add16(m.pc as int, 2)
                } else {
                    m.pc
                },
                ..m
            },
            Ok(()),
        ),
        Command::SkipIfRegEqual(x, y) => (
            MachineModel {
                pc: if m.regs[x.idx()] == m.regs[y.idx()] {
                    wrap_add16(m.pc as int, 2)
                } else {
                    m.pc
                },
                ..m
            },
            Ok(()),
        ),
        Command::SkipIfRegNotEqual(x, y) => (
            MachineModel {
                pc: if m.regs[x.idx()] != m.regs[y.idx()] {
                    wrap_add16(m.pc as int, 2)
                } else {
                    m.pc
                },
                ..m
            },
            Ok(()),
        ),
        Command::SetVal(x, v) => (MachineModel { regs: m.regs.update(x.idx(), v), ..m }, Ok(())),
        Command::AddVal(x, v) => (
            MachineModel {
                regs: m.regs.update(x.idx(), ((m.regs[x.idx()] + v) % 256) as u8),
                ..m
            },
            Ok(()),
        ),
        Command::SetReg(x, y) => (
            MachineModel { regs: m.regs.update(x.idx(), m.regs[y.idx()]), ..m },
            Ok(()),
        ),
        Command::BinOR(x, y) => (
            MachineModel { regs: m.regs.update(x.idx(), m.regs[y.idx()] | m.regs[x.idx()]), ..m },
            Ok(()),
        ),
        Command::BinAND(x, y) => (
            MachineModel { regs: m.regs.update(x.idx(), m.regs[y.idx()] & m.regs[x.idx()]), ..m },
            Ok(()),
        ),
        Command::LogXOR(x, y) => (
            MachineModel { regs: m.regs.update(x.idx(), m.regs[y.idx()] ^ m.regs[x.idx()]), ..m },
            Ok(()),
        ),
        Command::AddReg(x, y) => {
            let sum = m.regs[x.idx()] + m.regs[y.idx()];
            let flag: u8 = if sum > 255 {
                1
            } else {
                0
            };
            (
                MachineModel {
                    regs: m.regs.update(15, flag).update(x.idx(), (sum % 256) as u8),
                    ..m
                },
                Ok(()),
            )
        },
        Command::SubReg(x, y) => {
            let vx = m.regs[x.idx()];
            let vy = m.regs[y.idx()];
            let flag: u8 = if vx >= vy {
                1
            } else {
                0
            };
            (
                MachineModel {
                    regs: m.regs.update(15, flag).update(x.idx(), ((vx - vy + 256) % 256) as u8),
                    ..m
                },
                Ok(()),
            )
        },
        Command::SubRegRev(x, y) => {
            let vx = m.regs[x.idx()];
            let vy = m.regs[y.idx()];
            let flag: u8 = if vy >= vx {
                1
            } else {
                0
            };
            (
                MachineModel {
                    regs: m.regs.update(15, flag).update(x.idx(), ((vy - vx + 256) % 256) as u8),
                    ..m
                },
                Ok(()),
            )
        },
        Command::ShiftLeft(x, y) => {
            let vy = m.regs[y.idx()];
            let flag: u8 = (vy / 128) as u8;
            (
                MachineModel {
                    regs: m.regs.update(15, flag).update(x.idx(), ((vy * 2) % 256) as u8),
                    ..m
                },
                Ok(()),
            )
        },
        Command::ShiftRight(x, y) => {
            let vy = m.regs[y.idx()];
            let flag: u8 = (vy % 2) as u8;
            (
                MachineModel {
                    regs: m.regs.update(15, flag).update(x.idx(), (vy / 2) as u8),
                    ..m
                },
                Ok(()),
            )
        },
        Command::SetIndex(addr) => (MachineModel { index: addr, ..m }, Ok(())),
        Command::JumpWithOffset(addr, r) => (
            MachineModel { pc: wrap_add16(addr as int, m.regs[r.idx()] as int), ..m },
            Ok(()),
        ),
        Command::Random(x, v) => (
            MachineModel { regs: m.regs.update(x.idx(), rand & v), ..m },
            Ok(()),
        ),
        Command::Display(x, y, n) => {
            if m.index + n > m.mem.len() {
                (m, Err(MachineErr::Memory(MemoryErr)))
            } else {
                let sprite = m.mem.subrange(m.index as int, m.index + n);
                let x0 = (m.regs[x.idx()] as int) % m.width;
                let y0 = (m.regs[y.idx()] as int) % m.height;
                let coll = spec_collision(m.screen, sprite, m.width, m.height, x0, y0);
                (
                    MachineModel {
                        screen: spec_draw(m.screen, sprite, m.width, m.height, x0, y0),
                        regs: m.regs.update(15, if coll {
                            1u8
                        } else {
                            0u8
                        }),
                        ..m
                    },
                    Ok(()),
                )
            }
        },
        Command::SkipIfKey(x) => (
            MachineModel {
                pc: if m.keys[Key::spec_from_nibble(m.regs[x.idx()]).idx()] {
                    wrap_add16(m.pc as int, 2)
                } else {
                    m.pc
                },
                ..m
            },
            Ok(()),
        ),
        Command::SkipIfNotKey(x) => (
            MachineModel {
                pc: if !m.keys[Key::spec_from_nibble(m.regs[x.idx()]).idx()] {
                    wrap_add16(m.pc as int, 2)
                } else {
                    m.pc
                },
                ..m
            },
            Ok(()),
        ),
        Command::SetRegFromDelayTimer(x) => (
            MachineModel { regs: m.regs.update(x.idx(), m.delay), ..m },
            Ok(()),
        ),
        Command::SetDelayTimerFromReg(x) => (
            MachineModel { delay: m.regs[x.idx()], ..m },
            Ok(()),
        ),
        Command::SetSoundTimerFromReg(x) => (
            MachineModel { sound: m.regs[x.idx()], ..m },
            Ok(()),
        ),
        Command::AddIndex(x) => {
            let i2 = wrap_add16(m.index as int, m.regs[x.idx()] as int);
            let regs2 = if i2 >= 0x1000 {
                m.regs.update(15, 1u8)
            } else {
                m.regs
            };
            (MachineModel { index: (i2 % 0x1000) as u16, regs: regs2, ..m }, Ok(()))
        },
        Command::GetKey(x) => {
            match spec_first_pressed(m.keys) {
                None => (MachineModel { pc: wrap_sub2(m.pc), ..m }, Ok(())),
                Some(k) => (MachineModel { regs: m.regs.update(x.idx(), k), ..m }, Ok(())),
            }
        },
        Command::Font(x) => (MachineModel { index: m.regs[x.idx()] as u16, ..m }, Ok(())),
        Command::BCDConv(x) => {
            if m.index + 3 > m.mem.len() {
                (m, Err(MachineErr::Memory(MemoryErr)))
            } else {
                let v = m.regs[x.idx()];
                (
                    MachineModel {
                        mem: m.mem.update(m.index as int, (v / 100) as u8).update(
                            m.index + 1,
                            ((v / 10) % 10) as u8,
                        ).update(m.index + 2, (v % 10) as u8),
                        ..m
                    },
                    Ok(()),
                )
            }
        },
        Command::Store(x) => {
            if m.index + x.idx() + 1 > m.mem.len() {
                (m, Err(MachineErr::Memory(MemoryErr)))
            } else {
                (
                    MachineModel {
                        mem: spec_block_store(m.mem, m.index as int, m.regs, x.idx() + 1),
                        ..m
                    },
                    Ok(()),
                )
            }
        },
        Command::Load(x) => {
            if m.index + x.idx() + 1 > m.mem.len() {
                (m, Err(MachineErr::Memory(MemoryErr)))
            } else {
                (
                    MachineModel {
                        regs: spec_block_load(m.regs, m.mem, m.index as int, x.idx() + 1),
                        ..m
                    },
                    Ok(()),
                )
            }
        },
        Command::StoreWithIndexIncrement(x) => {
            if m.index + x.idx() + 1 > m.mem.len() {
                (m, Err(MachineErr::Memory(MemoryErr)))
            } else {
                (
                    MachineModel {
                        mem: spec_block_store(m.mem, m.index as int, m.regs, x.idx() + 1),
                        index: wrap_add16(m.index as int, x.idx() + 1),
                        ..m
                    },
                    Ok(()),
                )
            }
        },
        Command::LoadWithIndexIncrement(x) => {
            if m.index + x.idx() + 1 > m.mem.len() {
                (m, Err(MachineErr::Memory(MemoryErr)))
            } else {
                (
                    MachineModel {
                        regs: spec_block_load(m.regs, m.mem, m.index as int, x.idx() + 1),
                        index: wrap_add16(m.index as int, x.idx() + 1),
                        ..m
                    },
                    Ok(()),
                )
            }
        },
    }
}

/// The big-endian instruction word at the model's program counter.
pub open spec fn spec_fetch_word(m: MachineModel) -> u16 {
    (m.mem[m.pc as int] * 256 + m.mem[m.pc + 1]) as u16
}

/// One full step: fetch the word at the program counter, advance it by
/// two, decode and execute. Returns the next model and the step outcome;
/// on a fetch error the model is unchanged, on a decode or execute error
/// the program counter has still advanced.
pub open spec fn spec_step(m: MachineModel, rand: u8) -> (MachineModel, Result<(), MachineErr>) {
    if m.pc + 2 > m.mem.len() {
        (m, Err(MachineErr::Memory(MemoryErr)))
    } else {
        let m1 = MachineModel { pc: wrap_add16(m.pc as int, 2), ..m };
        match spec_decode(spec_fetch_word(m)) {
            Err(e) => (m1, Err(MachineErr::Decode(e))),
            Ok(cmd) => spec_execute(m1, cmd, rand),
        }
    }
}

/// Register adds wrap modulo 256: the destination receives the operand
/// sum modulo 256, and the register-to-register add writes the carry into
/// the flag register (cleared when there is no carry).
pub proof fn lemma_add_reg_wraps(m: MachineModel, x: Reg, y: Reg, rand: u8)
    requires
        m.regs.len() == 16,
    ensures
        spec_execute(m, Command::AddReg(x, y), rand).0.regs[x.idx()] == (m.regs[x.idx()]
            + m.regs[y.idx()]) % 256,
        x.idx() != 15 ==> spec_execute(m, Command::AddReg(x, y), rand).0.regs[15] == (if m.regs[
            x.idx()
        ] + m.regs[y.idx()] > 255 {
            1u8
        } else {
            0u8
        }),
{
}

/// Immediate adds wrap modulo 256 and leave the flag register alone.
pub proof fn lemma_add_val_wraps(m: MachineModel, x: Reg, v: u8, rand: u8)
    requires
        m.regs.len() == 16,
    ensures
        spec_execute(m, Command::AddVal(x, v), rand).0.regs[x.idx()] == (m.regs[x.idx()] + v)
            % 256,
        forall|i: int| 0 <= i < 16 && i != x.idx() ==> spec_execute(
            m,
            Command::AddVal(x, v),
            rand,
        ).0.regs[i] == m.regs[i],
{
}

/// Borrow convention: subtraction wraps modulo 256, and the flag register
/// receives 1 exactly when no borrow occurred (minuend at least the
/// subtrahend), 0 when it did.
pub proof fn lemma_sub_reg_borrow(m: MachineModel, x: Reg, y: Reg, rand: u8)
    requires
        m.regs.len() == 16,
    ensures
        spec_execute(m, Command::SubReg(x, y), rand).0.regs[x.idx()] == (m.regs[x.idx()] - m.regs[
            y.idx()
        ] + 256) % 256,
        x.idx() != 15 ==> spec_execute(m, Command::SubReg(x, y), rand).0.regs[15] == (if m.regs[
            x.idx()
        ] >= m.regs[y.idx()] {
            1u8
        } else {
            0u8
        }),
{
}

/// Right shift: the destination receives the source halved, and the flag
/// register receives the bit shifted out.
pub proof fn lemma_shift_right_law(m: MachineModel, x: Reg, y: Reg, rand: u8)
    requires
        m.regs.len() == 16,
    ensures
        spec_execute(m, Command::ShiftRight(x, y), rand).0.regs[x.idx()] == m.regs[y.idx()] / 2,
        x.idx() != 15 ==> spec_execute(m, Command::ShiftRight(x, y), rand).0.regs[15] == m.regs[
            y.idx()
        ] % 2,
{
}

/// Left shift: the destination receives the source doubled modulo 256,
/// and the flag register receives the bit shifted out.
pub proof fn lemma_shift_left_law(m: MachineModel, x: Reg, y: Reg, rand: u8)
    requires
        m.regs.len() == 16,
    ensures
        spec_execute(m, Command::ShiftLeft(x, y), rand).0.regs[x.idx()] == (m.regs[y.idx()] * 2)
            % 256,
        x.idx() != 15 ==> spec_execute(m, Command::ShiftLeft(x, y), rand).0.regs[15] == m.regs[
            y.idx()
        ] / 128,
{
}

/// Key-wait: with no key pressed the program counter rolls back by two
/// and every register is untouched, so the same instruction repeats on
/// the next step; once a key is pressed, the lowest pressed key's index
/// is written to the destination register and the program counter stays
/// where the fetch left it.
pub proof fn lemma_key_wait(m: MachineModel, x: Reg, rand: u8)
    requires
        m.regs.len() == 16,
        m.keys.len() == 16,
    ensures
        (forall|i: int| 0 <= i < 16 ==> !m.keys[i]) ==> spec_execute(
            m,
            Command::GetKey(x),
            rand,
        ).0 == (MachineModel { pc: wrap_sub2(m.pc), ..m }),
        (spec_first_pressed(m.keys) matches Some(k) ==> spec_execute(m, Command::GetKey(x), rand).0
            == (MachineModel { regs: m.regs.update(x.idx(), k), ..m }) && m.keys[k as int] && (
        forall|i: int| 0 <= i < k ==> !m.keys[i])),
{
    if forall|i: int| 0 <= i < 16 ==> !m.keys[i] {
        crate::key::lemma_first_pressed_none(m.keys);
    }
    match spec_first_pressed(m.keys) {
        Some(k) => crate::key::lemma_first_pressed_lowest(m.keys, k),
        None => (),
    }
}

/// Address where program bytes are loaded and execution begins.
pub const LOAD_OFFSET: u16 = 0x200;

/// The CHIP-8 virtual machine: program counter, index register and all
/// state containers, stepped one instruction at a time.
#[derive(Debug, Clone)]
pub struct Machine {
    memory: Memory,
    display: MachDisplay,
    pc: u16,
    index: u16,
    stack: Stack,
    delay_timer: Timer,
    sound_timer: Timer,
    reg: RegBank,
    key: KeyBank,
}

impl View for Machine {
    type V = MachineModel;

    closed spec fn view(&self) -> MachineModel {
        MachineModel {
            pc: self.pc,
            index: self.index,
            mem: self.memory@,
            regs: self.reg@,
            stack: self.stack@,
            delay: self.delay_timer@,
            sound: self.sound_timer@,
            keys: self.key@,
            screen: self.display@,
            width: self.display.spec_width(),
            height: self.display.spec_height(),
        }
    }
}

impl Machine {
    /// A well-formed machine holds sixteen registers, sixteen keys and a
    /// well-formed display.
    pub closed spec fn wf(&self) -> bool {
        &&& self.reg.wf()
        &&& self.key.wf()
        &&& self.display.wf()
    }

    /// A fresh machine: 4096 bytes of zeroed memory, a cleared 64 by 32
    /// display, the program counter at the load address, and every
    /// register, timer, key and stack slot cleared.
    pub fn new() -> (m: Machine)
        ensures
            m.wf(),
            m@.pc == 0x200u16,
            m@.index == 0u16,
            m@.mem.len() == 4096,
            forall|i: int| 0 <= i < 4096 ==> m@.mem[i] == 0u8,
            m@.regs.len() == 16,
            forall|i: int| 0 <= i < 16 ==> m@.regs[i] == 0u8,
            m@.stack.len() == 0,
            m@.delay == 0u8,
            m@.sound == 0u8,
            m@.keys.len() == 16,
            forall|i: int| 0 <= i < 16 ==> !m@.keys[i],
            m@.width == 64,
            m@.height == 32,
            m@.screen.len() == 32,
            forall|y: int| 0 <= y < 32 ==> #[trigger] m@.screen[y].len() == 64,
            forall|y: int, x: int| 0 <= y < 32 && 0 <= x < 64 ==> !(#[trigger] m@.screen[y][x]),
    {
        Machine {
            memory: Memory::new(4096),
            display: MachDisplay::new(64, 32),
            pc: LOAD_OFFSET,
            index: 0,
            stack: Stack::new(),
            delay_timer: Timer::new(),
            sound_timer: Timer::new(),
            reg: RegBank::new(),
            key: KeyBank::new(),
        }
    }

    /// Loads program bytes into memory starting at the load address; an
    /// error, and no change, if they reach past the allocated memory.
    pub fn load(&mut self, prog_data: &[u8]) -> (r: Result<(), MachineErr>)
        requires
            old(self).wf(),
        ensures
            final(self).wf(),
            0x200 + prog_data@.len() <= old(self)@.mem.len() ==> (r matches Ok(_) && final(self)@
                == (MachineModel {
                mem: spec_write(old(self)@.mem, 0x200, prog_data@),
                ..old(self)@
            })),
            0x200 + prog_data@.len() > old(self)@.mem.len() ==> r == Result::<(), MachineErr>::Err(
                MachineErr::Memory(MemoryErr),
            ) && final(self)@ == old(self)@,
    {
        match self.memory.write_data(LOAD_OFFSET, prog_data) {
            Ok(_) => {
                proof {
                    assert(self@ =~= MachineModel {
                        mem: spec_write(old(self)@.mem, 0x200, prog_data@),
                        ..old(self)@
                    });
                }
                Ok(())
            },
            Err(e) => {
                proof {
                    assert(self@ =~= old(self)@);
                }
                Err(MachineErr::Memory(e))
            },
        }
    }

    /// Executes one decoded command against the machine state: a total
    /// dispatch over every decoded variant. The program counter has
    /// already advanced past the instruction; on an error the state is
    /// left unchanged.
    #[verifier::rlimit(100)]
    fn execute_command(&mut self, command: Command, rand: u8) -> (r: Result<(), MachineErr>)
        requires
            old(self).wf(),
        ensures
            final(self).wf(),
            final(self)@ == spec_execute(old(self)@, command, rand).0,
            r == spec_execute(old(self)@, command, rand).1,
    {
        match command {
            Command::ExecuteMachineRoutine(..)
            | Command::ClearScreen
            | Command::Jump(..)
            | Command::Call(..)
            | Command::Return
            | Command::Skip => self.execute_system(command, rand),
            Command::SkipIfRegVal(..)
            | Command::SkipIfRegValNot(..)
            | Command::SkipIfRegEqual(..)
            | Command::SkipIfRegNotEqual(..)
            | Command::SkipIfKey(..)
            | Command::SkipIfNotKey(..) => self.execute_skips(command, rand),
            Command::SetVal(..)
            | Command::AddVal(..)
            | Command::SetReg(..)
            | Command::BinOR(..)
            | Command::BinAND(..)
            | Command::LogXOR(..) => self.execute_loads(command, rand),
            Command::AddReg(..)
            | Command::SubReg(..)
            | Command::SubRegRev(..)
            | Command::ShiftLeft(..)
            | Command::ShiftRight(..) => self.execute_arith(command, rand),
            Command::SetIndex(..)
            | Command::JumpWithOffset(..)
            | Command::Random(..)
            | Command::AddIndex(..)
            | Command::Font(..)
            | Command::GetKey(..) => self.execute_pointers(command, rand),
            Command::SetRegFromDelayTimer(..)
            | Command::SetDelayTimerFromReg(..)
            | Command::SetSoundTimerFromReg(..)
            | Command::Display(..)
            | Command::BCDConv(..) => self.execute_timers_draw(command, rand),
            Command::Store(..)
            | Command::Load(..)
            | Command::StoreWithIndexIncrement(..)
            | Command::LoadWithIndexIncrement(..) => self.execute_blocks(command, rand),
        }
    }

    /// Executes machine-routine rejection, screen clearing, jumps, calls and plain skips.
    #[verifier::rlimit(100)]
    fn execute_system(&mut self, command: Command, rand: u8) -> (r: Result<(), MachineErr>)
        requires
            old(self).wf(),
            (command matches Command::ExecuteMachineRoutine(..) || command matches Command::ClearScreen || command matches Command::Jump(..) || command matches Command::Call(..) || command matches Command::Return || command matches Command::Skip),
        ensures
            final(self).wf(),
            final(self)@ == spec_execute(old(self)@, command, rand).0,
            r == spec_execute(old(self)@, command, rand).1,
    {
        match command {
            Command::ExecuteMachineRoutine(addr) => self.execute_execute_machine_routine(addr, rand),
            Command::ClearScreen => self.execute_clear_screen(rand),
            Command::Jump(addr) => self.execute_jump(addr, rand),
            Command::Call(addr) => self.execute_call(addr, rand),
            Command::Return => self.execute_return(rand),
            Command::Skip => self.execute_skip(rand),
            _ => {
                proof {
                    assert(false);
                }
                Err(MachineErr::Decode(CommandErr))
            },
        }
    }

    /// Executes the conditional skips over registers and keys.
    #[verifier::rlimit(100)]
    fn execute_skips(&mut self, command: Command, rand: u8) -> (r: Result<(), MachineErr>)
        requires
            old(self).wf(),
            (command matches Command::SkipIfRegVal(..) || command matches Command::SkipIfRegValNot(..) || command matches Command::SkipIfRegEqual(..) || command matches Command::SkipIfRegNotEqual(..) || command matches Command::SkipIfKey(..) || command matches Command::SkipIfNotKey(..)),
        ensures
            final(self).wf(),
            final(self)@ == spec_execute(old(self)@, command, rand).0,
            r == spec_execute(old(self)@, command, rand).1,
    {
        match command {
            Command::SkipIfRegVal(x, v) => self.execute_skip_if_reg_val(x, v, rand),
            Command::SkipIfRegValNot(x, v) => self.execute_skip_if_reg_val_not(x, v, rand),
            Command::SkipIfRegEqual(x, y) => self.execute_skip_if_reg_equal(x, y, rand),
            Command::SkipIfRegNotEqual(x, y) => self.execute_skip_if_reg_not_equal(x, y, rand),
            Command::SkipIfKey(x) => self.execute_skip_if_key(x, rand),
            Command::SkipIfNotKey(x) => self.execute_skip_if_not_key(x, rand),
            _ => {
                proof {
                    assert(false);
                }
                Err(MachineErr::Decode(CommandErr))
            },
        }
    }

    /// Executes register loads and bitwise logic.
    #[verifier::rlimit(100)]
    fn execute_loads(&mut self, command: Command, rand: u8) -> (r: Result<(), MachineErr>)
        requires
            old(self).wf(),
            (command matches Command::SetVal(..) || command matches Command::AddVal(..) || command matches Command::SetReg(..) || command matches Command::BinOR(..) || command matches Command::BinAND(..) || command matches Command::LogXOR(..)),
        ensures
            final(self).wf(),
            final(self)@ == spec_execute(old(self)@, command, rand).0,
            r == spec_execute(old(self)@, command, rand).1,
    {
        match command {
            Command::SetVal(x, v) => self.execute_set_val(x, v, rand),
            Command::AddVal(x, v) => self.execute_add_val(x, v, rand),
            Command::SetReg(x, y) => self.execute_set_reg(x, y, rand),
            Command::BinOR(x, y) => self.execute_bin_o_r(x, y, rand),
            Command::BinAND(x, y) => self.execute_bin_a_n_d(x, y, rand),
            Command::LogXOR(x, y) => self.execute_log_x_o_r(x, y, rand),
            _ => {
                proof {
                    assert(false);
                }
                Err(MachineErr::Decode(CommandErr))
            },
        }
    }

    /// Executes flag-setting arithmetic and shifts.
    #[verifier::rlimit(100)]
    fn execute_arith(&mut self, command: Command, rand: u8) -> (r: Result<(), MachineErr>)
        requires
            old(self).wf(),
            (command matches Command::AddReg(..) || command matches Command::SubReg(..) || command matches Command::SubRegRev(..) || command matches Command::ShiftLeft(..) || command matches Command::ShiftRight(..)),
        ensures
            final(self).wf(),
            final(self)@ == spec_execute(old(self)@, command, rand).0,
            r == spec_execute(old(self)@, command, rand).1,
    {
        match command {
            Command::AddReg(x, y) => self.execute_add_reg(x, y, rand),
            Command::SubReg(x, y) => self.execute_sub_reg(x, y, rand),
            Command::SubRegRev(x, y) => self.execute_sub_reg_rev(x, y, rand),
            Command::ShiftLeft(x, y) => self.execute_shift_left(x, y, rand),
            Command::ShiftRight(x, y) => self.execute_shift_right(x, y, rand),
            _ => {
                proof {
                    assert(false);
                }
                Err(MachineErr::Decode(CommandErr))
            },
        }
    }

    /// Executes index manipulation, offset jumps, random bytes and key waits.
    #[verifier::rlimit(100)]
    fn execute_pointers(&mut self, command: Command, rand: u8) -> (r: Result<(), MachineErr>)
        requires
            old(self).wf(),
            (command matches Command::SetIndex(..) || command matches Command::JumpWithOffset(..) || command matches Command::Random(..) || command matches Command::AddIndex(..) || command matches Command::Font(..) || command matches Command::GetKey(..)),
        ensures
            final(self).wf(),
            final(self)@ == spec_execute(old(self)@, command, rand).0,
            r == spec_execute(old(self)@, command, rand).1,
    {
        match command {
            Command::SetIndex(addr) => self.execute_set_index(addr, rand),
            Command::JumpWithOffset(addr, off_reg) => self.execute_jump_with_offset(addr, off_reg, rand),
            Command::Random(x, v) => self.execute_random(x, v, rand),
            Command::AddIndex(x) => self.execute_add_index(x, rand),
            Command::Font(x) => self.execute_font(x, rand),
            Command::GetKey(x) => self.execute_get_key(x, rand),
            _ => {
                proof {
                    assert(false);
                }
                Err(MachineErr::Decode(CommandErr))
            },
        }
    }

    /// Executes timer transfers, drawing and decimal conversion.
    #[verifier::rlimit(100)]
    fn execute_timers_draw(&mut self, command: Command, rand: u8) -> (r: Result<(), MachineErr>)
        requires
            old(self).wf(),
            (command matches Command::SetRegFromDelayTimer(..) || command matches Command::SetDelayTimerFromReg(..) || command matches Command::SetSoundTimerFromReg(..) || command matches Command::Display(..) || command matches Command::BCDConv(..)),
        ensures
            final(self).wf(),
            final(self)@ == spec_execute(old(self)@, command, rand).0,
            r == spec_execute(old(self)@, command, rand).1,
    {
        match command {
            Command::SetRegFromDelayTimer(x) => self.execute_set_reg_from_delay_timer(x, rand),
            Command::SetDelayTimerFromReg(x) => self.execute_set_delay_timer_from_reg(x, rand),
            Command::SetSoundTimerFromReg(x) => self.execute_set_sound_timer_from_reg(x, rand),
            Command::Display(x, y, n) => self.execute_display(x, y, n, rand),
            Command::BCDConv(x) => self.execute_b_c_d_conv(x, rand),
            _ => {
                proof {
                    assert(false);
                }
                Err(MachineErr::Decode(CommandErr))
            },
        }
    }

    /// Executes the register block transfers.
    #[verifier::rlimit(100)]
    fn execute_blocks(&mut self, command: Command, rand: u8) -> (r: Result<(), MachineErr>)
        requires
            old(self).wf(),
            (command matches Command::Store(..) || command matches Command::Load(..) || command matches Command::StoreWithIndexIncrement(..) || command matches Command::LoadWithIndexIncrement(..)),
        ensures
            final(self).wf(),
            final(self)@ == spec_execute(old(self)@, command, rand).0,
            r == spec_execute(old(self)@, command, rand).1,
    {
        match command {
            Command::Store(x) => self.execute_store(x, rand),
            Command::Load(x) => self.execute_load(x, rand),
            Command::StoreWithIndexIncrement(x) => self.execute_store_with_index_increment(x, rand),
            Command::LoadWithIndexIncrement(x) => self.execute_load_with_index_increment(x, rand),
            _ => {
                proof {
                    assert(false);
                }
                Err(MachineErr::Decode(CommandErr))
            },
        }
    }

    /// Executes one `ExecuteMachineRoutine` command.
    #[verifier::rlimit(50)]
    fn execute_execute_machine_routine(&mut self, addr: u16, rand: u8) -> (r: Result<(), MachineErr>)
        requires
            old(self).wf(),
        ensures
            final(self).wf(),
            final(self)@ == spec_execute(old(self)@, Command::ExecuteMachineRoutine(addr), rand).0,
            r == spec_execute(old(self)@, Command::ExecuteMachineRoutine(addr), rand).1,
    {
        proof {
            assert(self@ =~~= spec_execute(old(self)@, Command::ExecuteMachineRoutine(addr), rand).0);
        }
        Err(MachineErr::Decode(CommandErr))
    }

    /// Executes one `ClearScreen` command.
    #[verifier::rlimit(50)]
    fn execute_clear_screen(&mut self, rand: u8) -> (r: Result<(), MachineErr>)
        requires
            old(self).wf(),
        ensures
            final(self).wf(),
            final(self)@ == spec_execute(old(self)@, Command::ClearScreen, rand).0,
            r == spec_execute(old(self)@, Command::ClearScreen, rand).1,
    {
        self.display.clear_screen();
        proof {
            assert forall|y: int| 0 <= y < old(self)@.height implies self.display@[y] =~= (
            Seq::new(old(self)@.width as nat, |x: int| false)) by {}
            assert(self.display@ =~~= spec_clear_screen(old(self)@.width, old(self)@.height));
            assert(self@ =~~= spec_execute(old(self)@, Command::ClearScreen, rand).0);
        }
        Ok(())
    }

    /// Executes one `Jump` command.
    #[verifier::rlimit(50)]
    fn execute_jump(&mut self, addr: u16, rand: u8) -> (r: Result<(), MachineErr>)
        requires
            old(self).wf(),
        ensures
            final(self).wf(),
            final(self)@ == spec_execute(old(self)@, Command::Jump(addr), rand).0,
            r == spec_execute(old(self)@, Command::Jump(addr), rand).1,
    {
        self.set_pc(addr);
        proof {
            assert(self@ =~~= spec_execute(old(self)@, Command::Jump(addr), rand).0);
        }
        Ok(())
    }

    /// Executes one `Call` command.
    #[verifier::rlimit(50)]
    fn execute_call(&mut self, addr: u16, rand: u8) -> (r: Result<(), MachineErr>)
        requires
            old(self).wf(),
        ensures
            final(self).wf(),
            final(self)@ == spec_execute(old(self)@, Command::Call(addr), rand).0,
            r == spec_execute(old(self)@, Command::Call(addr), rand).1,
    {
        self.stack.push(self.pc);
        self.set_pc(addr);
        proof {
            assert(self@ =~~= spec_execute(old(self)@, Command::Call(addr), rand).0);
        }
        Ok(())
    }

    /// Executes one `Return` command.
    #[verifier::rlimit(50)]
    fn execute_return(&mut self, rand: u8) -> (r: Result<(), MachineErr>)
        requires
            old(self).wf(),
        ensures
            final(self).wf(),
            final(self)@ == spec_execute(old(self)@, Command::Return, rand).0,
            r == spec_execute(old(self)@, Command::Return, rand).1,
    {
        match self.stack.pop() {
            Err(e) => {
                proof {
                    assert(self@ =~~= spec_execute(old(self)@, Command::Return, rand).0);
                }
                Err(MachineErr::StackUnderflow(e))
            },
            Ok(addr) => {
                self.set_pc(addr);
                proof {
                    assert(self@ =~~= spec_execute(old(self)@, Command::Return, rand).0);
                }
                Ok(())
            },
        }
    }

    /// Executes one `Skip` command.
    #[verifier::rlimit(50)]
    fn execute_skip(&mut self, rand: u8) -> (r: Result<(), MachineErr>)
        requires
            old(self).wf(),
        ensures
            final(self).wf(),
            final(self)@ == spec_execute(old(self)@, Command::Skip, rand).0,
            r == spec_execute(old(self)@, Command::Skip, rand).1,
    {
        self.increment_pc();
        proof {
            assert(self@ =~~= spec_execute(old(self)@, Command::Skip, rand).0);
        }
        Ok(())
    }

    /// Executes one `SkipIfRegVal` command.
    #[verifier::rlimit(50)]
    fn execute_skip_if_reg_val(&mut self, x: Reg, v: u8, rand: u8) -> (r: Result<(), MachineErr>)
        requires
            old(self).wf(),
        ensures
            final(self).wf(),
            final(self)@ == spec_execute(old(self)@, Command::SkipIfRegVal(x, v), rand).0,
            r == spec_execute(old(self)@, Command::SkipIfRegVal(x, v), rand).1,
    {
        if self.reg.get_value(x) == v {
            self.increment_pc();
        }
        proof {
            assert(self@ =~~= spec_execute(old(self)@, Command::SkipIfRegVal(x, v), rand).0);
        }
        Ok(())
    }

    /// Executes one `SkipIfRegValNot` command.
    #[verifier::rlimit(50)]
    fn execute_skip_if_reg_val_not(&mut self, x: Reg, v: u8, rand: u8) -> (r: Result<(), MachineErr>)
        requires
            old(self).wf(),
        ensures
            final(self).wf(),
            final(self)@ == spec_execute(old(self)@, Command::SkipIfRegValNot(x, v), rand).0,
            r == spec_execute(old(self)@, Command::SkipIfRegValNot(x, v), rand).1,
    {
        if self.reg.get_value(x) != v {
            self.increment_pc();
        }
        proof {
            assert(self@ =~~= spec_execute(old(self)@, Command::SkipIfRegValNot(x, v), rand).0);
        }
        Ok(())
    }

    /// Executes one `SkipIfRegEqual` command.
    #[verifier::rlimit(50)]
    fn execute_skip_if_reg_equal(&mut self, x: Reg, y: Reg, rand: u8) -> (r: Result<(), MachineErr>)
        requires
            old(self).wf(),
        ensures
            final(self).wf(),
            final(self)@ == spec_execute(old(self)@, Command::SkipIfRegEqual(x, y), rand).0,
            r == spec_execute(old(self)@, Command::SkipIfRegEqual(x, y), rand).1,
    {
        if self.reg.get_value(x) == self.reg.get_value(y) {
            self.increment_pc();
        }
        proof {
            assert(self@ =~~= spec_execute(old(self)@, Command::SkipIfRegEqual(x, y), rand).0);
        }
        Ok(())
    }

    /// Executes one `SkipIfRegNotEqual` command.
    #[verifier::rlimit(50)]
    fn execute_skip_if_reg_not_equal(&mut self, x: Reg, y: Reg, rand: u8) -> (r: Result<(), MachineErr>)
        requires
            old(self).wf(),
        ensures
            final(self).wf(),
            final(self)@ == spec_execute(old(self)@, Command::SkipIfRegNotEqual(x, y), rand).0,
            r == spec_execute(old(self)@, Command::SkipIfRegNotEqual(x, y), rand).1,
    {
        if self.reg.get_value(x) != self.reg.get_value(y) {
            self.increment_pc();
        }
        proof {
            assert(self@ =~~= spec_execute(old(self)@, Command::SkipIfRegNotEqual(x, y), rand).0);
        }
        Ok(())
    }

    /// Executes one `SetVal` command.
    #[verifier::rlimit(50)]
    fn execute_set_val(&mut self, x: Reg, v: u8, rand: u8) -> (r: Result<(), MachineErr>)
        requires
            old(self).wf(),
        ensures
            final(self).wf(),
            final(self)@ == spec_execute(old(self)@, Command::SetVal(x, v), rand).0,
            r == spec_execute(old(self)@, Command::SetVal(x, v), rand).1,
    {
        self.reg.set_value(x, v);
        proof {
            assert(self@ =~~= spec_execute(old(self)@, Command::SetVal(x, v), rand).0);
        }
        Ok(())
    }

    /// Executes one `AddVal` command.
    #[verifier::rlimit(50)]
    fn execute_add_val(&mut self, x: Reg, v: u8, rand: u8) -> (r: Result<(), MachineErr>)
        requires
            old(self).wf(),
        ensures
            final(self).wf(),
            final(self)@ == spec_execute(old(self)@, Command::AddVal(x, v), rand).0,
            r == spec_execute(old(self)@, Command::AddVal(x, v), rand).1,
    {
        self.reg.add_value(x, v);
        proof {
            assert(self@ =~~= spec_execute(old(self)@, Command::AddVal(x, v), rand).0);
        }
        Ok(())
    }

    /// Executes one `SetReg` command.
    #[verifier::rlimit(50)]
    fn execute_set_reg(&mut self, x: Reg, y: Reg, rand: u8) -> (r: Result<(), MachineErr>)
        requires
            old(self).wf(),
        ensures
            final(self).wf(),
            final(self)@ == spec_execute(old(self)@, Command::SetReg(x, y), rand).0,
            r == spec_execute(old(self)@, Command::SetReg(x, y), rand).1,
    {
        let vy = self.reg.get_value(y);
        self.reg.set_value(x, vy);
        proof {
            assert(self@ =~~= spec_execute(old(self)@, Command::SetReg(x, y), rand).0);
        }
        Ok(())
    }

    /// Executes one `BinOR` command.
    #[verifier::rlimit(50)]
    fn execute_bin_o_r(&mut self, x: Reg, y: Reg, rand: u8) -> (r: Result<(), MachineErr>)
        requires
            old(self).wf(),
        ensures
            final(self).wf(),
            final(self)@ == spec_execute(old(self)@, Command::BinOR(x, y), rand).0,
            r == spec_execute(old(self)@, Command::BinOR(x, y), rand).1,
    {
        let vy = self.reg.get_value(y);
        let vx = self.reg.get_value(x);
        self.reg.set_value(x, vy | vx);
        proof {
            assert(self@ =~~= spec_execute(old(self)@, Command::BinOR(x, y), rand).0);
        }
        Ok(())
    }

    /// Executes one `BinAND` command.
    #[verifier::rlimit(50)]
    fn execute_bin_a_n_d(&mut self, x: Reg, y: Reg, rand: u8) -> (r: Result<(), MachineErr>)
        requires
            old(self).wf(),
        ensures
            final(self).wf(),
            final(self)@ == spec_execute(old(self)@, Command::BinAND(x, y), rand).0,
            r == spec_execute(old(self)@, Command::BinAND(x, y), rand).1,
    {
        let vy = self.reg.get_value(y);
        let vx = self.reg.get_value(x);
        self.reg.set_value(x, vy & vx);
        proof {
            assert(self@ =~~= spec_execute(old(self)@, Command::BinAND(x, y), rand).0);
        }
        Ok(())
    }

    /// Executes one `LogXOR` command.
    #[verifier::rlimit(50)]
    fn execute_log_x_o_r(&mut self, x: Reg, y: Reg, rand: u8) -> (r: Result<(), MachineErr>)
        requires
            old(self).wf(),
        ensures
            final(self).wf(),
            final(self)@ == spec_execute(old(self)@, Command::LogXOR(x, y), rand).0,
            r == spec_execute(old(self)@, Command::LogXOR(x, y), rand).1,
    {
        let vy = self.reg.get_value(y);
        let vx = self.reg.get_value(x);
        self.reg.set_value(x, vy ^ vx);
        proof {
            assert(self@ =~~= spec_execute(old(self)@, Command::LogXOR(x, y), rand).0);
        }
        Ok(())
    }

    /// Executes one `SetIndex` command.
    #[verifier::rlimit(50)]
    fn execute_set_index(&mut self, addr: u16, rand: u8) -> (r: Result<(), MachineErr>)
        requires
            old(self).wf(),
        ensures
            final(self).wf(),
            final(self)@ == spec_execute(old(self)@, Command::SetIndex(addr), rand).0,
            r == spec_execute(old(self)@, Command::SetIndex(addr), rand).1,
    {
        self.index = addr;
        proof {
            assert(self@ =~~= spec_execute(old(self)@, Command::SetIndex(addr), rand).0);
        }
        Ok(())
    }

    /// Executes one `JumpWithOffset` command.
    #[verifier::rlimit(50)]
    fn execute_jump_with_offset(&mut self, addr: u16, off_reg: Reg, rand: u8) -> (r: Result<(), MachineErr>)
        requires
            old(self).wf(),
        ensures
            final(self).wf(),
            final(self)@ == spec_execute(old(self)@, Command::JumpWithOffset(addr, off_reg), rand).0,
            r == spec_execute(old(self)@, Command::JumpWithOffset(addr, off_reg), rand).1,
    {
        let vr = self.reg.get_value(off_reg);
        self.set_pc(addr.wrapping_add(vr as u16));
        proof {
            assert(self@ =~~= spec_execute(old(self)@, Command::JumpWithOffset(addr, off_reg), rand).0);
        }
        Ok(())
    }

    /// Executes one `Random` command.
    #[verifier::rlimit(50)]
    fn execute_random(&mut self, x: Reg, v: u8, rand: u8) -> (r: Result<(), MachineErr>)
        requires
            old(self).wf(),
        ensures
            final(self).wf(),
            final(self)@ == spec_execute(old(self)@, Command::Random(x, v), rand).0,
            r == spec_execute(old(self)@, Command::Random(x, v), rand).1,
    {
        self.reg.set_value(x, rand & v);
        proof {
            assert(self@ =~~= spec_execute(old(self)@, Command::Random(x, v), rand).0);
        }
        Ok(())
    }

    /// Executes one `Display` command.
    #[verifier::rlimit(50)]
    fn execute_display(&mut self, x: Reg, y: Reg, n: u8, rand: u8) -> (r: Result<(), MachineErr>)
        requires
            old(self).wf(),
        ensures
            final(self).wf(),
            final(self)@ == spec_execute(old(self)@, Command::Display(x, y, n), rand).0,
            r == spec_execute(old(self)@, Command::Display(x, y, n), rand).1,
    {
        let vx = self.reg.get_value(x);
        let vy = self.reg.get_value(y);
        match self.memory.get_data(self.index, n as usize) {
            Err(e) => {
                proof {
                    assert(self@ =~~= spec_execute(old(self)@, Command::Display(x, y, n), rand).0);
                }
                Err(MachineErr::Memory(e))
            },
            Ok(sprite) => {
                let collided = self.display.draw(sprite.as_slice(), vx, vy);
                self.reg.set_value(Reg::VF, if collided {
                    1
                } else {
                    0
                });
                proof {
                    assert(self@ =~~= spec_execute(old(self)@, Command::Display(x, y, n), rand).0);
                }
                Ok(())
            },
        }
    }

    /// Executes one `SkipIfKey` command.
    #[verifier::rlimit(50)]
    fn execute_skip_if_key(&mut self, x: Reg, rand: u8) -> (r: Result<(), MachineErr>)
        requires
            old(self).wf(),
        ensures
            final(self).wf(),
            final(self)@ == spec_execute(old(self)@, Command::SkipIfKey(x), rand).0,
            r == spec_execute(old(self)@, Command::SkipIfKey(x), rand).1,
    {
        let vx = self.reg.get_value(x);
        let k = Key::from_nibble(vx);
        if self.key.get_value(k) {
            self.increment_pc();
        }
        proof {
            assert(self@ =~~= spec_execute(old(self)@, Command::SkipIfKey(x), rand).0);
        }
        Ok(())
    }

    /// Executes one `SkipIfNotKey` command.
    #[verifier::rlimit(50)]
    fn execute_skip_if_not_key(&mut self, x: Reg, rand: u8) -> (r: Result<(), MachineErr>)
        requires
            old(self).wf(),
        ensures
            final(self).wf(),
            final(self)@ == spec_execute(old(self)@, Command::SkipIfNotKey(x), rand).0,
            r == spec_execute(old(self)@, Command::SkipIfNotKey(x), rand).1,
    {
        let vx = self.reg.get_value(x);
        let k = Key::from_nibble(vx);
        if !self.key.get_value(k) {
            self.increment_pc();
        }
        proof {
            assert(self@ =~~= spec_execute(old(self)@, Command::SkipIfNotKey(x), rand).0);
        }
        Ok(())
    }

    /// Executes one `SetRegFromDelayTimer` command.
    #[verifier::rlimit(50)]
    fn execute_set_reg_from_delay_timer(&mut self, x: Reg, rand: u8) -> (r: Result<(), MachineErr>)
        requires
            old(self).wf(),
        ensures
            final(self).wf(),
            final(self)@ == spec_execute(old(self)@, Command::SetRegFromDelayTimer(x), rand).0,
            r == spec_execute(old(self)@, Command::SetRegFromDelayTimer(x), rand).1,
    {
        let v = self.delay_timer.get_value();
        self.reg.set_value(x, v);
        proof {
            assert(self@ =~~= spec_execute(old(self)@, Command::SetRegFromDelayTimer(x), rand).0);
        }
        Ok(())
    }

    /// Executes one `SetDelayTimerFromReg` command.
    #[verifier::rlimit(50)]
    fn execute_set_delay_timer_from_reg(&mut self, x: Reg, rand: u8) -> (r: Result<(), MachineErr>)
        requires
            old(self).wf(),
        ensures
            final(self).wf(),
            final(self)@ == spec_execute(old(self)@, Command::SetDelayTimerFromReg(x), rand).0,
            r == spec_execute(old(self)@, Command::SetDelayTimerFromReg(x), rand).1,
    {
        let v = self.reg.get_value(x);
        self.delay_timer.set_value(v);
        proof {
            assert(self@ =~~= spec_execute(old(self)@, Command::SetDelayTimerFromReg(x), rand).0);
        }
        Ok(())
    }

    /// Executes one `SetSoundTimerFromReg` command.
    #[verifier::rlimit(50)]
    fn execute_set_sound_timer_from_reg(&mut self, x: Reg, rand: u8) -> (r: Result<(), MachineErr>)
        requires
            old(self).wf(),
        ensures
            final(self).wf(),
            final(self)@ == spec_execute(old(self)@, Command::SetSoundTimerFromReg(x), rand).0,
            r == spec_execute(old(self)@, Command::SetSoundTimerFromReg(x), rand).1,
    {
        let v = self.reg.get_value(x);
        self.sound_timer.set_value(v);
        proof {
            assert(self@ =~~= spec_execute(old(self)@, Command::SetSoundTimerFromReg(x), rand).0);
        }
        Ok(())
    }

    /// Executes one `AddIndex` command.
    #[verifier::rlimit(50)]
    fn execute_add_index(&mut self, x: Reg, rand: u8) -> (r: Result<(), MachineErr>)
        requires
            old(self).wf(),
        ensures
            final(self).wf(),
            final(self)@ == spec_execute(old(self)@, Command::AddIndex(x), rand).0,
            r == spec_execute(old(self)@, Command::AddIndex(x), rand).1,
    {
        let vx = self.reg.get_value(x);
        let i2 = self.index.wrapping_add(vx as u16);
        if i2 >= 0x1000 {
            self.reg.set_value(Reg::VF, 1);
        }
        self.index = i2 % 0x1000;
        proof {
            assert(self@ =~~= spec_execute(old(self)@, Command::AddIndex(x), rand).0);
        }
        Ok(())
    }

    /// Executes one `GetKey` command.
    #[verifier::rlimit(50)]
    fn execute_get_key(&mut self, x: Reg, rand: u8) -> (r: Result<(), MachineErr>)
        requires
            old(self).wf(),
        ensures
            final(self).wf(),
            final(self)@ == spec_execute(old(self)@, Command::GetKey(x), rand).0,
            r == spec_execute(old(self)@, Command::GetKey(x), rand).1,
    {
        match self.key.get_key_pressed() {
            None => {
                self.decrement_pc();
            },
            Some(k) => {
                self.reg.set_value(x, k);
            },
        }
        proof {
            assert(self@ =~~= spec_execute(old(self)@, Command::GetKey(x), rand).0);
        }
        Ok(())
    }

    /// Executes one `Font` command.
    #[verifier::rlimit(50)]
    fn execute_font(&mut self, x: Reg, rand: u8) -> (r: Result<(), MachineErr>)
        requires
            old(self).wf(),
        ensures
            final(self).wf(),
            final(self)@ == spec_execute(old(self)@, Command::Font(x), rand).0,
            r == spec_execute(old(self)@, Command::Font(x), rand).1,
    {
        let vx = self.reg.get_value(x);
        self.index = vx as u16;
        proof {
            assert(self@ =~~= spec_execute(old(self)@, Command::Font(x), rand).0);
        }
        Ok(())
    }

    /// Executes one `BCDConv` command.
    #[verifier::rlimit(50)]
    fn execute_b_c_d_conv(&mut self, x: Reg, rand: u8) -> (r: Result<(), MachineErr>)
        requires
            old(self).wf(),
        ensures
            final(self).wf(),
            final(self)@ == spec_execute(old(self)@, Command::BCDConv(x), rand).0,
            r == spec_execute(old(self)@, Command::BCDConv(x), rand).1,
    {
        let v = self.reg.get_value(x);
        let base = self.index as usize;
        if base + 3 > self.memory.len() {
            proof {
                assert(self@ =~~= spec_execute(old(self)@, Command::BCDConv(x), rand).0);
            }
            return Err(MachineErr::Memory(MemoryErr));
        }
        self.memory.write_at(base, v / 100);
        self.memory.write_at(base + 1, (v / 10) % 10);
        self.memory.write_at(base + 2, v % 10);
        proof {
            assert(self@ =~~= spec_execute(old(self)@, Command::BCDConv(x), rand).0);
        }
        Ok(())
    }

    /// Executes one `Store` command.
    #[verifier::rlimit(50)]
    fn execute_store(&mut self, x: Reg, rand: u8) -> (r: Result<(), MachineErr>)
        requires
            old(self).wf(),
        ensures
            final(self).wf(),
            final(self)@ == spec_execute(old(self)@, Command::Store(x), rand).0,
            r == spec_execute(old(self)@, Command::Store(x), rand).1,
    {
        let xi = x.index();
        let base = self.index as usize;
        if base + xi + 1 > self.memory.len() {
            proof {
                assert(self@ =~~= spec_execute(old(self)@, Command::Store(x), rand).0);
            }
            return Err(MachineErr::Memory(MemoryErr));
        }
        self.store_block(base, xi);
        proof {
            assert(self@ =~~= spec_execute(old(self)@, Command::Store(x), rand).0);
        }
        Ok(())
    }

    /// Executes one `Load` command.
    #[verifier::rlimit(50)]
    fn execute_load(&mut self, x: Reg, rand: u8) -> (r: Result<(), MachineErr>)
        requires
            old(self).wf(),
        ensures
            final(self).wf(),
            final(self)@ == spec_execute(old(self)@, Command::Load(x), rand).0,
            r == spec_execute(old(self)@, Command::Load(x), rand).1,
    {
        let xi = x.index();
        let base = self.index as usize;
        if base + xi + 1 > self.memory.len() {
            proof {
                assert(self@ =~~= spec_execute(old(self)@, Command::Load(x), rand).0);
            }
            return Err(MachineErr::Memory(MemoryErr));
        }
        self.load_block(base, xi);
        proof {
            assert(self@ =~~= spec_execute(old(self)@, Command::Load(x), rand).0);
        }
        Ok(())
    }

    /// Executes one `StoreWithIndexIncrement` command.
    #[verifier::rlimit(50)]
    fn execute_store_with_index_increment(&mut self, x: Reg, rand: u8) -> (r: Result<(), MachineErr>)
        requires
            old(self).wf(),
        ensures
            final(self).wf(),
            final(self)@ == spec_execute(old(self)@, Command::StoreWithIndexIncrement(x), rand).0,
            r == spec_execute(old(self)@, Command::StoreWithIndexIncrement(x), rand).1,
    {
        let xi = x.index();
        let base = self.index as usize;
        if base + xi + 1 > self.memory.len() {
            proof {
                assert(self@ =~~= spec_execute(old(self)@, Command::StoreWithIndexIncrement(x), rand).0);
            }
            return Err(MachineErr::Memory(MemoryErr));
        }
        self.store_block(base, xi);
        self.index = self.index.wrapping_add(xi as u16 + 1);
        proof {
            assert(self@ =~~= spec_execute(old(self)@, Command::StoreWithIndexIncrement(x), rand).0);
        }
        Ok(())
    }

    /// Executes one `LoadWithIndexIncrement` command.
    #[verifier::rlimit(50)]
    fn execute_load_with_index_increment(&mut self, x: Reg, rand: u8) -> (r: Result<(), MachineErr>)
        requires
            old(self).wf(),
        ensures
            final(self).wf(),
            final(self)@ == spec_execute(old(self)@, Command::LoadWithIndexIncrement(x), rand).0,
            r == spec_execute(old(self)@, Command::LoadWithIndexIncrement(x), rand).1,
    {
        let xi = x.index();
        let base = self.index as usize;
        if base + xi + 1 > self.memory.len() {
            proof {
                assert(self@ =~~= spec_execute(old(self)@, Command::LoadWithIndexIncrement(x), rand).0);
            }
            return Err(MachineErr::Memory(MemoryErr));
        }
        self.load_block(base, xi);
        self.index = self.index.wrapping_add(xi as u16 + 1);
        proof {
            assert(self@ =~~= spec_execute(old(self)@, Command::LoadWithIndexIncrement(x), rand).0);
        }
        Ok(())
    }

    /// Executes one `AddReg` command.
    #[verifier::rlimit(100)]
    fn execute_add_reg(&mut self, x: Reg, y: Reg, rand: u8) -> (r: Result<(), MachineErr>)
        requires
            old(self).wf(),
        ensures
            final(self).wf(),
            final(self)@ == spec_execute(old(self)@, Command::AddReg(x, y), rand).0,
            r == spec_execute(old(self)@, Command::AddReg(x, y), rand).1,
    {
        let vx = self.reg.get_value(x);
        let vy = self.reg.get_value(y);
        let sum: u16 = vx as u16 + vy as u16;
        let flag: u8 = if sum > 255 {
            1
        } else {
            0
        };
        self.reg.set_value(Reg::VF, flag);
        self.reg.set_value(x, (sum % 256) as u8);
        proof {
            assert(self@ =~~= spec_execute(old(self)@, Command::AddReg(x, y), rand).0);
        }
        Ok(())
    }

    /// Executes one `SubReg` command.
    #[verifier::rlimit(100)]
    fn execute_sub_reg(&mut self, x: Reg, y: Reg, rand: u8) -> (r: Result<(), MachineErr>)
        requires
            old(self).wf(),
        ensures
            final(self).wf(),
            final(self)@ == spec_execute(old(self)@, Command::SubReg(x, y), rand).0,
            r == spec_execute(old(self)@, Command::SubReg(x, y), rand).1,
    {
        let vx = self.reg.get_value(x);
        let vy = self.reg.get_value(y);
        let flag: u8 = if vx >= vy {
            1
        } else {
            0
        };
        self.reg.set_value(Reg::VF, flag);
        self.reg.set_value(x, vx.wrapping_sub(vy));
        proof {
            assert(self@ =~~= spec_execute(old(self)@, Command::SubReg(x, y), rand).0);
        }
        Ok(())
    }

    /// Executes one `SubRegRev` command.
    #[verifier::rlimit(100)]
    fn execute_sub_reg_rev(&mut self, x: Reg, y: Reg, rand: u8) -> (r: Result<(), MachineErr>)
        requires
            old(self).wf(),
        ensures
            final(self).wf(),
            final(self)@ == spec_execute(old(self)@, Command::SubRegRev(x, y), rand).0,
            r == spec_execute(old(self)@, Command::SubRegRev(x, y), rand).1,
    {
        let vx = self.reg.get_value(x);
        let vy = self.reg.get_value(y);
        let flag: u8 = if vy >= vx {
            1
        } else {
            0
        };
        self.reg.set_value(Reg::VF, flag);
        self.reg.set_value(x, vy.wrapping_sub(vx));
        proof {
            assert(self@ =~~= spec_execute(old(self)@, Command::SubRegRev(x, y), rand).0);
        }
        Ok(())
    }

    /// Executes one `ShiftLeft` command.
    #[verifier::rlimit(100)]
    fn execute_shift_left(&mut self, x: Reg, y: Reg, rand: u8) -> (r: Result<(), MachineErr>)
        requires
            old(self).wf(),
        ensures
            final(self).wf(),
            final(self)@ == spec_execute(old(self)@, Command::ShiftLeft(x, y), rand).0,
            r == spec_execute(old(self)@, Command::ShiftLeft(x, y), rand).1,
    {
        let vy = self.reg.get_value(y);
        let flag: u8 = vy / 128;
        let res: u8 = (vy % 128) * 2;
        self.reg.set_value(Reg::VF, flag);
        self.reg.set_value(x, res);
        proof {
            assert(res == ((vy * 2) % 256) as u8);
            assert(self@ =~~= spec_execute(old(self)@, Command::ShiftLeft(x, y), rand).0);
        }
        Ok(())
    }

    /// Executes one `ShiftRight` command.
    #[verifier::rlimit(100)]
    fn execute_shift_right(&mut self, x: Reg, y: Reg, rand: u8) -> (r: Result<(), MachineErr>)
        requires
            old(self).wf(),
        ensures
            final(self).wf(),
            final(self)@ == spec_execute(old(self)@, Command::ShiftRight(x, y), rand).0,
            r == spec_execute(old(self)@, Command::ShiftRight(x, y), rand).1,
    {
        let vy = self.reg.get_value(y);
        let flag: u8 = vy % 2;
        let res: u8 = vy / 2;
        self.reg.set_value(Reg::VF, flag);
        self.reg.set_value(x, res);
        proof {
            assert(self@ =~~= spec_execute(old(self)@, Command::ShiftRight(x, y), rand).0);
        }
        Ok(())
    }

    /// Copies registers `0 ..= xi` into memory starting at `base`.
    #[verifier::loop_isolation(false)]
    fn store_block(&mut self, base: usize, xi: usize)
        requires
            old(self).wf(),
            xi < 16,
            base <= 0xFFFF,
            base + xi + 1 <= old(self)@.mem.len(),
        ensures
            final(self).wf(),
            final(self)@ == (MachineModel {
                mem: spec_block_store(old(self)@.mem, base as int, old(self)@.regs, xi + 1),
                ..old(self)@
            }),
    {
        let mut j: usize = 0;
        while j <= xi
            invariant
                self.reg.wf(),
                self.key.wf(),
                self.display.wf(),
                j <= xi + 1,
                self.pc == old(self).pc,
                self.index == old(self).index,
                self.stack@ == old(self).stack@,
                self.reg@ == old(self).reg@,
                self.key@ == old(self).key@,
                self.delay_timer@ == old(self).delay_timer@,
                self.sound_timer@ == old(self).sound_timer@,
                self.display == old(self).display,
                self.memory@.len() == old(self)@.mem.len(),
                self.memory@ == spec_block_store(
                    old(self)@.mem,
                    base as int,
                    old(self)@.regs,
                    j as int,
                ),
            decreases xi + 1 - j,
        {
            let v = self.reg.get_by_index(j);
            self.memory.write_at(base + j, v);
            proof {
                assert(self.memory@ =~= spec_block_store(
                    old(self)@.mem,
                    base as int,
                    old(self)@.regs,
                    j + 1,
                ));
            }
            j = j + 1;
        }
        proof {
            assert(self@ =~~= (MachineModel {
                mem: spec_block_store(old(self)@.mem, base as int, old(self)@.regs, xi + 1),
                ..old(self)@
            }));
        }
    }

    /// Loads registers `0 ..= xi` from memory starting at `base`.
    #[verifier::loop_isolation(false)]
    fn load_block(&mut self, base: usize, xi: usize)
        requires
            old(self).wf(),
            xi < 16,
            base <= 0xFFFF,
            base + xi + 1 <= old(self)@.mem.len(),
        ensures
            final(self).wf(),
            final(self)@ == (MachineModel {
                regs: spec_block_load(old(self)@.regs, old(self)@.mem, base as int, xi + 1),
                ..old(self)@
            }),
    {
        let mut j: usize = 0;
        while j <= xi
            invariant
                self.reg.wf(),
                self.key.wf(),
                self.display.wf(),
                j <= xi + 1,
                self.pc == old(self).pc,
                self.index == old(self).index,
                self.stack@ == old(self).stack@,
                self.memory@ == old(self).memory@,
                self.key@ == old(self).key@,
                self.delay_timer@ == old(self).delay_timer@,
                self.sound_timer@ == old(self).sound_timer@,
                self.display == old(self).display,
                self.reg@ == spec_block_load(
                    old(self)@.regs,
                    old(self)@.mem,
                    base as int,
                    j as int,
                ),
            decreases xi + 1 - j,
        {
            let v = self.memory.read_at(base + j);
            self.reg.set_by_index(j, v);
            proof {
                assert(self.reg@ =~= spec_block_load(
                    old(self)@.regs,
                    old(self)@.mem,
                    base as int,
                    j + 1,
                ));
            }
            j = j + 1;
        }
        proof {
            assert(self@ =~~= (MachineModel {
                regs: spec_block_load(old(self)@.regs, old(self)@.mem, base as int, xi + 1),
                ..old(self)@
            }));
        }
    }

    /// One full step: fetch the big-endian word at the program counter,
    /// advance the counter by two, decode the word and execute the
    /// command. Errors surface as values; the machine never panics.
    pub fn step(&mut self, rand: u8) -> (r: Result<(), MachineErr>)
        requires
            old(self).wf(),
        ensures
            final(self).wf(),
            final(self)@ == spec_step(old(self)@, rand).0,
            r == spec_step(old(self)@, rand).1,
    {
        let fetched = match self.memory.get_command_data(self.pc) {
            Err(e) => {
                return Err(MachineErr::Memory(e));
            },
            Ok(t) => t,
        };
        let word = (fetched.0 as u16) * 256 + (fetched.1 as u16);
        proof {
            assert(word == spec_fetch_word(old(self)@));
        }
        self.increment_pc();
        let cmd = match RawCommand(word).decode() {
            Err(e) => {
                return Err(MachineErr::Decode(e));
            },
            Ok(c) => c,
        };
        self.execute_command(cmd, rand)
    }

    /// Advances the program counter by two, with 16-bit wraparound.
    fn increment_pc(&mut self)
        ensures
            final(self)@ == (MachineModel { pc: wrap_add16(old(self)@.pc as int, 2), ..old(self)@ }),
            final(self).wf() == old(self).wf(),
    {
        self.pc = self.pc.wrapping_add(2);
        proof {
            assert(self@ =~= MachineModel {
                pc: wrap_add16(old(self)@.pc as int, 2),
                ..old(self)@
            });
        }
    }

    /// Rolls the program counter back by two, with 16-bit wraparound.
    fn decrement_pc(&mut self)
        ensures
            final(self)@ == (MachineModel { pc: wrap_sub2(old(self)@.pc), ..old(self)@ }),
            final(self).wf() == old(self).wf(),
    {
        self.pc = self.pc.wrapping_sub(2);
        proof {
            assert(self@ =~= MachineModel { pc: wrap_sub2(old(self)@.pc), ..old(self)@ });
        }
    }

    /// Sets the program counter.
    fn set_pc(&mut self, addr: u16)
        ensures
            final(self)@ == (MachineModel { pc: addr, ..old(self)@ }),
            final(self).wf() == old(self).wf(),
    {
        self.pc = addr;
        proof {
            assert(self@ =~= MachineModel { pc: addr, ..old(self)@ });
        }
    }

    /// Ticks both timers once: each counts down by one, stopping at zero.
    /// The driver calls this at its own fixed rate, independently of the
    /// instruction rate.
    pub fn tick_timers(&mut self)
        requires
            old(self).wf(),
        ensures
            final(self).wf(),
            final(self)@ == (MachineModel {
                delay: spec_tick(old(self)@.delay),
                sound: spec_tick(old(self)@.sound),
                ..old(self)@
            }),
    {
        self.delay_timer.decrement();
        self.sound_timer.decrement();
        proof {
            assert(self@ =~= MachineModel {
                delay: spec_tick(old(self)@.delay),
                sound: spec_tick(old(self)@.sound),
                ..old(self)@
            });
        }
    }

    /// Marks a key pressed or released, for the input collaborator.
    pub fn set_key(&mut self, key: Key, pressed: bool)
        requires
            old(self).wf(),
        ensures
            final(self).wf(),
            final(self)@ == (MachineModel {
                keys: old(self)@.keys.update(key.idx(), pressed),
                ..old(self)@
            }),
    {
        self.key.set_value(key, pressed);
        proof {
            assert(self@ =~= MachineModel {
                keys: old(self)@.keys.update(key.idx(), pressed),
                ..old(self)@
            });
        }
    }

    /// The current program counter.
    pub fn get_pc(&self) -> (pc: u16)
        ensures
            pc == self@.pc,
    {
        self.pc
    }

    /// The current index register.
    pub fn get_index(&self) -> (i: u16)
        ensures
            i == self@.index,
    {
        self.index
    }

    /// The current value of register `reg`.
    pub fn get_reg(&self, reg: Reg) -> (v: u8)
        requires
            self.wf(),
        ensures
            v == self@.regs[reg.idx()],
    {
        self.reg.get_value(reg)
    }

    /// The current delay timer count.
    pub fn get_delay_timer(&self) -> (v: u8)
        ensures
            v == self@.delay,
    {
        self.delay_timer.get_value()
    }

    /// The current sound timer count, for the audio collaborator.
    pub fn get_sound_timer(&self) -> (v: u8)
        ensures
            v == self@.sound,
    {
        self.sound_timer.get_value()
    }

    /// Reads one pixel of the display, for the presentation collaborator;
    /// an error if the coordinate lies outside the grid.
    pub fn get_pixel(&self, x: usize, y: usize) -> (r: Result<bool, DisplayErr>)
        requires
            self.wf(),
        ensures
            x < self@.width && y < self@.height ==> r == Result::<bool, DisplayErr>::Ok(
                self@.screen[y as int][x as int],
            ),
            !(x < self@.width && y < self@.height) ==> r == Result::<bool, DisplayErr>::Err(
                DisplayErr,
            ),
    {
        self.display.get_pixel(x, y)
    }
}

} // verus!
