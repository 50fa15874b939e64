//! The ModRM operand decoder and the r/m operand accessors built on it.
use vstd::prelude::*;

use crate::emulator::{le32, wadd, EmuError, Emulator, Machine, REGISTER_COUNT};

verus! {

/// The displacement of a memory operand, in the one form its `mode` and `rm` select.
#[derive(Debug, Clone, Copy, PartialEq, Eq, Structural)]
pub enum Disp {
    Absent,
    Disp8(i8),
    Disp32(u32),
}

/// A decoded ModRM operand descriptor.
#[derive(Debug, Clone, Copy, PartialEq, Eq, Structural)]
pub struct ModRM {
    /// Bits 7-6: 0, 1, 2 address memory, 3 names a register.
    pub mode: u8,
    /// Bits 5-3: a register, or an opcode extension for group opcodes.
    pub reg: u8,
    /// Bits 2-0: the base register, or the SIB escape.
    pub rm: u8,
    pub sib: Option<u8>,
    pub disp: Disp,
}

pub open spec fn mode_of(b: u8) -> u8 {
    b / 64
}

pub open spec fn reg_of(b: u8) -> u8 {
    (b / 8) % 8
}

pub open spec fn rm_of(b: u8) -> u8 {
    b % 8
}

/// A SIB byte follows the ModRM byte for memory operands with `rm == 4`.
pub open spec fn has_sib(mode: u8, rm: u8) -> bool {
    mode != 3 && rm == 4
}

/// The number of displacement bytes for `mode` and `rm`.
pub open spec fn disp_width(mode: u8, rm: u8) -> int {
    if (mode == 0 && rm == 5) || mode == 2 {
        4
    } else if mode == 1 {
        1
    } else {
        0
    }
}

/// The bytes that the ModRM byte `b` and what follows it take up.
pub open spec fn modrm_len(b: u8) -> int {
    1 + (if has_sib(mode_of(b), rm_of(b)) {
        1int
    } else {
        0
    }) + disp_width(mode_of(b), rm_of(b))
}

/// The operand descriptor whose ModRM byte stands at `p`.
pub open spec fn modrm_at(mem: Seq<u8>, p: int) -> ModRM {
    let b = mem[p];
    let mode = mode_of(b);
    let rm = rm_of(b);
    let d = if has_sib(mode, rm) {
        p + 2
    } else {
        p + 1
    };
    ModRM {
        mode,
        reg: reg_of(b),
        rm,
        sib: if has_sib(mode, rm) {
            Some(mem[p + 1])
        } else {
            None
        },
        disp: if disp_width(mode, rm) == 4 {
            Disp::Disp32(le32(mem, d))
        } else if disp_width(mode, rm) == 1 {
            Disp::Disp8(mem[d] as i8)
        } else {
            Disp::Absent
        },
    }
}

pub open spec fn disp8_of(d: Disp) -> i8 {
    match d {
        Disp::Disp8(x) => x,
        _ => 0,
    }
}

pub open spec fn disp32_of(d: Disp) -> u32 {
    match d {
        Disp::Disp32(x) => x,
        _ => 0,
    }
}

impl ModRM {
    /// The fields fit their bit widths and the SIB byte and displacement
    /// are present in the forms that `mode` and `rm` select.
    pub open spec fn wf(self) -> bool {
        &&& self.mode < 4
        &&& self.reg < 8
        &&& self.rm < 8
        &&& (self.sib is Some <==> has_sib(self.mode, self.rm))
        &&& match self.disp {
            Disp::Absent => disp_width(self.mode, self.rm) == 0,
            Disp::Disp8(_) => disp_width(self.mode, self.rm) == 1,
            Disp::Disp32(_) => disp_width(self.mode, self.rm) == 4,
        }
    }
}

impl Machine {
    /// Decoding at the instruction pointer: the descriptor, and the state
    /// with the pointer moved past every byte decoded.
    pub open spec fn decode_modrm(self) -> Result<(ModRM, Machine), EmuError> {
        if !self.code_fits(1) || !self.code_fits(modrm_len(self.code8(0))) {
            Err(EmuError::OutOfRange)
        } else {
            Ok(
                (
                    modrm_at(self.mem, self.eip as int),
                    self.advance(modrm_len(self.code8(0)) as u32),
                ),
            )
        }
    }

    /// The effective address of a memory operand.
    pub open spec fn address_of(self, m: ModRM) -> Result<u32, EmuError> {
        if m.mode == 3 || m.rm == 4 {
            Err(EmuError::UnsupportedAddressing(m.mode, m.rm))
        } else if m.mode == 0 && m.rm == 5 {
            Ok(disp32_of(m.disp))
        } else if m.mode == 0 {
            Ok(self.regs[m.rm as int])
        } else if m.mode == 1 {
            Ok(wadd(self.regs[m.rm as int], disp8_of(m.disp) as u32))
        } else {
            Ok(wadd(self.regs[m.rm as int], disp32_of(m.disp)))
        }
    }

    /// The value of the r/m operand.
    pub open spec fn rm32(self, m: ModRM) -> Result<u32, EmuError> {
        if m.mode == 3 {
            Ok(self.regs[m.rm as int])
        } else {
            match self.address_of(m) {
                Ok(a) => if self.holds(a as int, 4) {
                    Ok(le32(self.mem, a as int))
                } else {
                    Err(EmuError::OutOfRange)
                },
                Err(e) => Err(e),
            }
        }
    }

    /// The state with `v` stored in the r/m operand.
    pub open spec fn set_rm32(self, m: ModRM, v: u32) -> Result<Machine, EmuError> {
        if m.mode == 3 {
            Ok(self.with_reg(m.rm as int, v))
        } else {
            match self.address_of(m) {
                Ok(a) => if self.holds(a as int, 4) {
                    Ok(self.with_mem32(a as int, v))
                } else {
                    Err(EmuError::OutOfRange)
                },
                Err(e) => Err(e),
            }
        }
    }
}

/// Each ModRM byte selects exactly one displacement form, and the decoder
/// consumes exactly that many displacement bytes.
pub proof fn lemma_displacement_exclusive(mem: Seq<u8>, p: int)
    requires
        0 <= p < mem.len(),
    ensures
        ({
            let b = mem[p];
            let w = disp_width(mode_of(b), rm_of(b));
            &&& w == 0 || w == 1 || w == 4
            &&& modrm_len(b) == 1 + (if has_sib(mode_of(b), rm_of(b)) {
                1int
            } else {
                0
            }) + w
            &&& (modrm_at(mem, p).disp is Absent <==> w == 0)
            &&& (modrm_at(mem, p).disp is Disp8 <==> w == 1)
            &&& (modrm_at(mem, p).disp is Disp32 <==> w == 4)
        }),
{
}

/// Decoding reads only the instruction pointer and the bytes from it on:
/// two machines that agree on those decode to the same descriptor and
/// advance to the same instruction pointer.
pub proof fn lemma_decode_deterministic(m1: Machine, m2: Machine)
    requires
        m1.eip == m2.eip,
        forall|i: int|
            0 <= i < 6 ==> (#[trigger] m1.code_fits(i + 1) <==> m2.code_fits(i + 1)),
        forall|i: int| 0 <= i < 6 && m1.code_fits(i + 1) ==> #[trigger] m1.code8(i) == m2.code8(i),
    ensures
        match (m1.decode_modrm(), m2.decode_modrm()) {
            (Ok((d1, n1)), Ok((d2, n2))) => d1 == d2 && n1.eip == n2.eip,
            (Err(e1), Err(e2)) => e1 == e2,
            _ => false,
        },
{
    assert(m1.code_fits(1) == m2.code_fits(1));
    if m1.code_fits(1) {
        assert(m1.code8(0) == m2.code8(0));
        let n = modrm_len(m1.code8(0));
        assert(1 <= n <= 6);
        assert(m1.code_fits(n) == m2.code_fits(n)) by {
            assert(m1.code_fits((n - 1) + 1) == m2.code_fits((n - 1) + 1));
        }
        if m1.code_fits(n) {
            assert forall|i: int| 0 <= i < n implies m1.code8(i) == m2.code8(i) by {
                assert(m1.code_fits(i + 1));
            }
            let p = m1.eip as int;
            let b = m1.code8(0);
            let s: int = if has_sib(mode_of(b), rm_of(b)) { 1 } else { 0 };
            let w = disp_width(mode_of(b), rm_of(b));
            if s == 1 {
                assert(m1.code8(1) == m2.code8(1));
            }
            if w >= 1 {
                assert(m1.code8(1 + s) == m2.code8(1 + s));
            }
            if w == 4 {
                assert(m1.code8(2 + s) == m2.code8(2 + s));
                assert(m1.code8(3 + s) == m2.code8(3 + s));
                assert(m1.code8(4 + s) == m2.code8(4 + s));
            }
            assert(modrm_at(m1.mem, p) == modrm_at(m2.mem, p));
        }
    }
}

impl ModRM {
    /// Decodes the operand descriptor at the instruction pointer and moves
    /// the pointer past the ModRM byte, the SIB byte and the displacement.
    /// Where those bytes run past the memory it fails and changes nothing.
    pub fn parse_modrm(emu: &mut Emulator) -> (r: Result<ModRM, EmuError>)
        requires
            old(emu).wf(),
        ensures
            final(emu).wf(),
            match old(emu)@.decode_modrm() {
                Ok((m, next)) => r == Ok::<ModRM, EmuError>(m) && final(emu)@ == next,
                Err(e) => r == Err::<ModRM, EmuError>(e) && final(emu)@ == old(emu)@,
            },
            r matches Ok(m) ==> m.wf(),
    {
        if !emu.code_fits(1) {
            return Err(EmuError::OutOfRange);
        }
        let code = emu.get_code8(0);
        let mode = (code & 0b1100_0000) >> 6;
        let reg = (code & 0b0011_1000) >> 3;
        let rm = code & 0b111;
        assert(mode == code / 64 && reg == (code / 8) % 8 && rm == code % 8) by (bit_vector)
            requires
                mode == (code & 0b1100_0000) >> 6,
                reg == (code & 0b0011_1000) >> 3,
                rm == code & 0b111,
        ;
        let has_sib = mode != 0b11 && rm == 0b100;
        let disp_size: usize = if (mode == 0b00 && rm == 0b101) || mode == 0b10 {
            4
        } else if mode == 0b01 {
            1
        } else {
            0
        };
        let head: usize = if has_sib {
            2
        } else {
            1
        };
        let total = head + disp_size;
        if !emu.code_fits(total) {
            return Err(EmuError::OutOfRange);
        }
        let sib = if has_sib {
            Some(emu.get_code8(1))
        } else {
            None
        };
        let disp = if disp_size == 4 {
            Disp::Disp32(emu.get_code32(head))
        } else if disp_size == 1 {
            Disp::Disp8(emu.get_sign_code8(head))
        } else {
            Disp::Absent
        };
        emu.eip = emu.eip.wrapping_add(total as u32);
        Ok(ModRM { mode, reg, rm, sib, disp })
    }
}

impl Emulator {
    /// The effective address of a memory operand.
    pub fn calc_memory_address(&self, modrm: &ModRM) -> (r: Result<u32, EmuError>)
        requires
            self.wf(),
            modrm.wf(),
        ensures
            r == self@.address_of(*modrm),
    {
        if modrm.mode == 0b11 || modrm.rm == 0b100 {
            return Err(EmuError::UnsupportedAddressing(modrm.mode, modrm.rm));
        }
        let base = self.get_register32(modrm.rm as usize);
        match modrm.disp {
            Disp::Absent => Ok(base),
            Disp::Disp8(d) => Ok(base.wrapping_add(d as u32)),
            Disp::Disp32(d) => if modrm.mode == 0b00 {
                Ok(d)
            } else {
                Ok(base.wrapping_add(d))
            },
        }
    }

    /// Reads the r/m operand: a register in mode 3, else the word at its
    /// effective address.
    pub fn get_rm32(&self, modrm: &ModRM) -> (r: Result<u32, EmuError>)
        requires
            self.wf(),
            modrm.wf(),
        ensures
            r == self@.rm32(*modrm),
    {
        if modrm.mode == 0b11 {
            Ok(self.get_register32(modrm.rm as usize))
        } else {
            let address = self.calc_memory_address(modrm)?;
            if !self.holds(address, 4) {
                return Err(EmuError::OutOfRange);
            }
            Ok(self.get_memory32(address as usize))
        }
    }

    /// Writes `value` to the r/m operand; on failure nothing changes.
    pub fn set_rm32(&mut self, modrm: &ModRM, value: u32) -> (r: Result<(), EmuError>)
        requires
            old(self).wf(),
            modrm.wf(),
        ensures
            final(self).wf(),
            match old(self)@.set_rm32(*modrm, value) {
                Ok(m) => r is Ok && final(self)@ == m,
                Err(e) => r == Err::<(), EmuError>(e) && final(self)@ == old(self)@,
            },
    {
        if modrm.mode == 0b11 {
            self.set_register32(modrm.rm as usize, value);
            Ok(())
        } else {
            let address = match self.calc_memory_address(modrm) {
                Ok(a) => a,
                Err(e) => return Err(e),
            };
            if !self.holds(address, 4) {
                return Err(EmuError::OutOfRange);
            }
            self.set_memory32(address as usize, value);
            Ok(())
        }
    }
}

} // verus!
