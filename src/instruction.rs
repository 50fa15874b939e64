//! Per-opcode semantics, the opcode dispatch table and the single-step
//! fetch-dispatch-execute transition.
use vstd::prelude::*;

use crate::emulator::{wadd, wsub, EmuError, Emulator, Machine, EBP_INDEX, ESP_INDEX};
use crate::modrm::ModRM;

verus! {

/// The handlers that the dispatch table can hold.
#[derive(Debug, Clone, Copy, PartialEq, Eq, Structural)]
pub enum Instruction {
    AddRm32R32,
    PushR32,
    PopR32,
    PushImm32,
    PushImm8,
    Code83,
    MovRm32R32,
    MovR32Rm32,
    MovR32Imm32,
    Ret,
    MovRm32Imm32,
    Leave,
    CallRel32,
    NearJump,
    ShortJump,
    CodeFF,
}

/// The handler registered for each opcode byte.
pub open spec fn instruction_for(op: u8) -> Option<Instruction> {
    if op == 0x01 {
        Some(Instruction::AddRm32R32)
    } else if 0x50 <= op <= 0x57 {
        Some(Instruction::PushR32)
    } else if 0x58 <= op <= 0x5F {
        Some(Instruction::PopR32)
    } else if op == 0x68 {
        Some(Instruction::PushImm32)
    } else if op == 0x6A {
        Some(Instruction::PushImm8)
    } else if op == 0x83 {
        Some(Instruction::Code83)
    } else if op == 0x89 {
        Some(Instruction::MovRm32R32)
    } else if op == 0x8B {
        Some(Instruction::MovR32Rm32)
    } else if 0xB8 <= op <= 0xBF {
        Some(Instruction::MovR32Imm32)
    } else if op == 0xC3 {
        Some(Instruction::Ret)
    } else if op == 0xC7 {
        Some(Instruction::MovRm32Imm32)
    } else if op == 0xC9 {
        Some(Instruction::Leave)
    } else if op == 0xE8 {
        Some(Instruction::CallRel32)
    } else if op == 0xE9 {
        Some(Instruction::NearJump)
    } else if op == 0xEB {
        Some(Instruction::ShortJump)
    } else if op == 0xFF {
        Some(Instruction::CodeFF)
    } else {
        None
    }
}

/// `table` maps every opcode byte to its handler.
pub open spec fn is_dispatch_table(table: Seq<Option<Instruction>>) -> bool {
    &&& table.len() == 256
    &&& forall|i: int| 0 <= i < 256 ==> #[trigger] table[i] == instruction_for(i as u8)
}

/// What a handler returned and the state it left agree with its semantics:
/// the resulting state on success, the same error on failure.
pub open spec fn outcome(r: Result<(), EmuError>, after: Machine, expected: Result<Machine, EmuError>) -> bool {
    match expected {
        Ok(m) => r is Ok && after == m,
        Err(e) => r == Err::<(), EmuError>(e),
    }
}

impl Machine {
    /// The sign-extended 8-bit immediate `i` bytes past the instruction pointer.
    pub open spec fn imm8s(self, i: int) -> u32 {
        (self.code8(i) as i8) as u32
    }

    /// `B8+r id`: register r takes the 32-bit immediate.
    pub open spec fn mov_r32_imm32(self) -> Result<Machine, EmuError> {
        if !self.code_fits(5) {
            Err(EmuError::OutOfRange)
        } else {
            Ok(self.with_reg(self.code8(0) - 0xB8, self.code32(1)).advance(5))
        }
    }

    /// `C7 /0 id`: the r/m operand takes the 32-bit immediate after the ModRM bytes.
    pub open spec fn mov_rm32_imm32(self) -> Result<Machine, EmuError> {
        match self.advance(1).decode_modrm() {
            Err(e) => Err(e),
            Ok((m, s)) => if !s.code_fits(4) {
                Err(EmuError::OutOfRange)
            } else {
                s.advance(4).set_rm32(m, s.code32(0))
            },
        }
    }

    /// `89 /r`: the r/m operand takes register `reg`.
    pub open spec fn mov_rm32_r32(self) -> Result<Machine, EmuError> {
        match self.advance(1).decode_modrm() {
            Err(e) => Err(e),
            Ok((m, s)) => s.set_rm32(m, s.regs[m.reg as int]),
        }
    }

    /// `8B /r`: register `reg` takes the r/m operand.
    pub open spec fn mov_r32_rm32(self) -> Result<Machine, EmuError> {
        match self.advance(1).decode_modrm() {
            Err(e) => Err(e),
            Ok((m, s)) => match s.rm32(m) {
                Err(e) => Err(e),
                Ok(v) => Ok(s.with_reg(m.reg as int, v)),
            },
        }
    }

    /// `01 /r`: the r/m operand is increased by register `reg`.
    pub open spec fn add_rm32_r32(self) -> Result<Machine, EmuError> {
        match self.advance(1).decode_modrm() {
            Err(e) => Err(e),
            Ok((m, s)) => match s.rm32(m) {
                Err(e) => Err(e),
                Ok(v) => s.set_rm32(m, wadd(v, s.regs[m.reg as int])),
            },
        }
    }

    /// `83 /0 ib`, after the ModRM bytes: the r/m operand is increased by the
    /// sign-extended immediate.
    pub open spec fn add_rm32_imm8(self, m: ModRM) -> Result<Machine, EmuError> {
        match self.rm32(m) {
            Err(e) => Err(e),
            Ok(v) => if !self.code_fits(1) {
                Err(EmuError::OutOfRange)
            } else {
                self.advance(1).set_rm32(m, wadd(v, self.imm8s(0)))
            },
        }
    }

    /// `83 /5 ib`, after the ModRM bytes: the r/m operand is decreased by the
    /// sign-extended immediate.
    pub open spec fn sub_rm32_imm8(self, m: ModRM) -> Result<Machine, EmuError> {
        match self.rm32(m) {
            Err(e) => Err(e),
            Ok(v) => if !self.code_fits(1) {
                Err(EmuError::OutOfRange)
            } else {
                self.advance(1).set_rm32(m, wsub(v, self.imm8s(0)))
            },
        }
    }

    /// `83`: the ModRM `reg` field selects add (0) or sub (5).
    pub open spec fn code_83(self) -> Result<Machine, EmuError> {
        match self.advance(1).decode_modrm() {
            Err(e) => Err(e),
            Ok((m, s)) => if m.reg == 0 {
                s.add_rm32_imm8(m)
            } else if m.reg == 5 {
                s.sub_rm32_imm8(m)
            } else {
                Err(EmuError::UnsupportedExtension(0x83, m.reg))
            },
        }
    }

    /// `FF /0`, after the ModRM bytes: the r/m operand is increased by one.
    pub open spec fn inc_rm32(self, m: ModRM) -> Result<Machine, EmuError> {
        match self.rm32(m) {
            Err(e) => Err(e),
            Ok(v) => self.set_rm32(m, wadd(v, 1)),
        }
    }

    /// `FF`: the ModRM `reg` field selects inc (0).
    pub open spec fn code_ff(self) -> Result<Machine, EmuError> {
        match self.advance(1).decode_modrm() {
            Err(e) => Err(e),
            Ok((m, s)) => if m.reg == 0 {
                s.inc_rm32(m)
            } else {
                Err(EmuError::UnsupportedExtension(0xFF, m.reg))
            },
        }
    }

    /// `EB cb`: jump by the signed 8-bit offset from the end of the instruction.
    pub open spec fn short_jump(self) -> Result<Machine, EmuError> {
        if !self.code_fits(2) {
            Err(EmuError::OutOfRange)
        } else {
            Ok(self.with_eip(wadd(wadd(self.eip, self.imm8s(1)), 2)))
        }
    }

    /// `E9 cd`: jump by the signed 32-bit offset from the end of the instruction.
    pub open spec fn near_jump(self) -> Result<Machine, EmuError> {
        if !self.code_fits(5) {
            Err(EmuError::OutOfRange)
        } else {
            Ok(self.with_eip(wadd(wadd(self.eip, self.code32(1)), 5)))
        }
    }

    /// `50+r`: push register r.
    pub open spec fn push_r32(self) -> Result<Machine, EmuError> {
        match self.push32(self.regs[self.code8(0) - 0x50]) {
            Err(e) => Err(e),
            Ok(s) => Ok(s.advance(1)),
        }
    }

    /// `68 id`: push the 32-bit immediate.
    pub open spec fn push_imm32(self) -> Result<Machine, EmuError> {
        if !self.code_fits(5) {
            Err(EmuError::OutOfRange)
        } else {
            match self.push32(self.code32(1)) {
                Err(e) => Err(e),
                Ok(s) => Ok(s.advance(5)),
            }
        }
    }

    /// `6A ib`: push the 8-bit immediate, zero-extended.
    pub open spec fn push_imm8(self) -> Result<Machine, EmuError> {
        if !self.code_fits(2) {
            Err(EmuError::OutOfRange)
        } else {
            match self.push32(self.code8(1) as u32) {
                Err(e) => Err(e),
                Ok(s) => Ok(s.advance(2)),
            }
        }
    }

    /// `58+r`: pop into register r.
    pub open spec fn pop_r32(self) -> Result<Machine, EmuError> {
        match self.pop32() {
            Err(e) => Err(e),
            Ok((s, v)) => Ok(s.with_reg(self.code8(0) - 0x58, v).advance(1)),
        }
    }

    /// `E8 cd`: push the address after the instruction, then jump by the
    /// signed 32-bit offset from there.
    pub open spec fn call_rel32(self) -> Result<Machine, EmuError> {
        if !self.code_fits(5) {
            Err(EmuError::OutOfRange)
        } else {
            match self.push32(wadd(self.eip, 5)) {
                Err(e) => Err(e),
                Ok(s) => Ok(s.with_eip(wadd(wadd(self.eip, self.code32(1)), 5))),
            }
        }
    }

    /// `C3`: jump to the popped address.
    pub open spec fn ret(self) -> Result<Machine, EmuError> {
        match self.pop32() {
            Err(e) => Err(e),
            Ok((s, v)) => Ok(s.with_eip(v)),
        }
    }

    /// `C9`: the stack pointer takes the frame pointer, then the frame
    /// pointer is popped.
    pub open spec fn leave(self) -> Result<Machine, EmuError> {
        match self.with_reg(ESP_INDEX as int, self.regs[EBP_INDEX as int]).pop32() {
            Err(e) => Err(e),
            Ok((s, v)) => Ok(s.with_reg(EBP_INDEX as int, v).advance(1)),
        }
    }

    /// The effect of handler `ins` on this state.
    pub open spec fn execute(self, ins: Instruction) -> Result<Machine, EmuError> {
        match ins {
            Instruction::AddRm32R32 => self.add_rm32_r32(),
            Instruction::PushR32 => self.push_r32(),
            Instruction::PopR32 => self.pop_r32(),
            Instruction::PushImm32 => self.push_imm32(),
            Instruction::PushImm8 => self.push_imm8(),
            Instruction::Code83 => self.code_83(),
            Instruction::MovRm32R32 => self.mov_rm32_r32(),
            Instruction::MovR32Rm32 => self.mov_r32_rm32(),
            Instruction::MovR32Imm32 => self.mov_r32_imm32(),
            Instruction::Ret => self.ret(),
            Instruction::MovRm32Imm32 => self.mov_rm32_imm32(),
            Instruction::Leave => self.leave(),
            Instruction::CallRel32 => self.call_rel32(),
            Instruction::NearJump => self.near_jump(),
            Instruction::ShortJump => self.short_jump(),
            Instruction::CodeFF => self.code_ff(),
        }
    }

    /// One fetch-dispatch-execute step.
    pub open spec fn step(self) -> Result<Machine, EmuError> {
        if !self.code_fits(1) {
            Err(EmuError::OutOfRange)
        } else {
            match instruction_for(self.code8(0)) {
                None => Err(EmuError::UnsupportedOpcode(self.code8(0))),
                Some(ins) => self.execute(ins),
            }
        }
    }
}

/// The handler registered for opcode `op`.
pub fn instruction_for_opcode(op: u8) -> (r: Option<Instruction>)
    ensures
        r == instruction_for(op),
{
    if op == 0x01 {
        Some(Instruction::AddRm32R32)
    } else if 0x50 <= op && op <= 0x57 {
        Some(Instruction::PushR32)
    } else if 0x58 <= op && op <= 0x5F {
        Some(Instruction::PopR32)
    } else if op == 0x68 {
        Some(Instruction::PushImm32)
    } else if op == 0x6A {
        Some(Instruction::PushImm8)
    } else if op == 0x83 {
        Some(Instruction::Code83)
    } else if op == 0x89 {
        Some(Instruction::MovRm32R32)
    } else if op == 0x8B {
        Some(Instruction::MovR32Rm32)
    } else if 0xB8 <= op && op <= 0xBF {
        Some(Instruction::MovR32Imm32)
    } else if op == 0xC3 {
        Some(Instruction::Ret)
    } else if op == 0xC7 {
        Some(Instruction::MovRm32Imm32)
    } else if op == 0xC9 {
        Some(Instruction::Leave)
    } else if op == 0xE8 {
        Some(Instruction::CallRel32)
    } else if op == 0xE9 {
        Some(Instruction::NearJump)
    } else if op == 0xEB {
        Some(Instruction::ShortJump)
    } else if op == 0xFF {
        Some(Instruction::CodeFF)
    } else {
        None
    }
}

/// Builds the 256-entry dispatch table, one slot per opcode byte.
pub fn init_instructions() -> (r: Vec<Option<Instruction>>)
    ensures
        is_dispatch_table(r@),
{
    let mut instructions: Vec<Option<Instruction>> = Vec::new();
    let mut i: u32 = 0;
    while i < 256
        invariant
            i <= 256,
            instructions@.len() == i,
            forall|k: int| 0 <= k < i ==> #[trigger] instructions@[k] == instruction_for(k as u8),
        decreases 256 - i,
    {
        instructions.push(instruction_for_opcode(i as u8));
        i = i + 1;
    }
    instructions
}

impl Emulator {
    pub fn mov_r32_imm32(&mut self) -> (r: Result<(), EmuError>)
        requires
            old(self).wf(),
            old(self)@.code_fits(1),
            0xB8 <= old(self)@.code8(0) <= 0xBF,
        ensures
            final(self).wf(),
            outcome(r, final(self)@, old(self)@.mov_r32_imm32()),
    {
        if !self.code_fits(5) {
            return Err(EmuError::OutOfRange);
        }
        let reg = self.get_code8(0) - 0xB8;
        let value = self.get_code32(1);
        self.set_register32(reg as usize, value);
        self.eip = self.eip.wrapping_add(5);
        Ok(())
    }

    pub fn mov_rm32_imm32(&mut self) -> (r: Result<(), EmuError>)
        requires
            old(self).wf(),
        ensures
            final(self).wf(),
            outcome(r, final(self)@, old(self)@.mov_rm32_imm32()),
    {
        self.eip = self.eip.wrapping_add(1);
        let modrm = ModRM::parse_modrm(self)?;
        if !self.code_fits(4) {
            return Err(EmuError::OutOfRange);
        }
        let value = self.get_code32(0);
        self.eip = self.eip.wrapping_add(4);
        self.set_rm32(&modrm, value)
    }

    pub fn mov_rm32_r32(&mut self) -> (r: Result<(), EmuError>)
        requires
            old(self).wf(),
        ensures
            final(self).wf(),
            outcome(r, final(self)@, old(self)@.mov_rm32_r32()),
    {
        self.eip = self.eip.wrapping_add(1);
        let modrm = ModRM::parse_modrm(self)?;
        let r32 = self.get_register32(modrm.reg as usize);
        self.set_rm32(&modrm, r32)
    }

    pub fn mov_r32_rm32(&mut self) -> (r: Result<(), EmuError>)
        requires
            old(self).wf(),
        ensures
            final(self).wf(),
            outcome(r, final(self)@, old(self)@.mov_r32_rm32()),
    {
        self.eip = self.eip.wrapping_add(1);
        let modrm = ModRM::parse_modrm(self)?;
        let rm32 = self.get_rm32(&modrm)?;
        self.set_register32(modrm.reg as usize, rm32);
        Ok(())
    }

    pub fn code_83(&mut self) -> (r: Result<(), EmuError>)
        requires
            old(self).wf(),
        ensures
            final(self).wf(),
            outcome(r, final(self)@, old(self)@.code_83()),
    {
        self.eip = self.eip.wrapping_add(1);
        let modrm = ModRM::parse_modrm(self)?;
        match modrm.reg {
            0 => self.add_rm32_imm8(&modrm),
            5 => self.sub_rm32_imm8(&modrm),
            ext => Err(EmuError::UnsupportedExtension(0x83, ext)),
        }
    }

    pub fn code_ff(&mut self) -> (r: Result<(), EmuError>)
        requires
            old(self).wf(),
        ensures
            final(self).wf(),
            outcome(r, final(self)@, old(self)@.code_ff()),
    {
        self.eip = self.eip.wrapping_add(1);
        let modrm = ModRM::parse_modrm(self)?;
        match modrm.reg {
            0 => self.inc_rm32(&modrm),
            ext => Err(EmuError::UnsupportedExtension(0xFF, ext)),
        }
    }

    pub fn add_rm32_r32(&mut self) -> (r: Result<(), EmuError>)
        requires
            old(self).wf(),
        ensures
            final(self).wf(),
            outcome(r, final(self)@, old(self)@.add_rm32_r32()),
    {
        self.eip = self.eip.wrapping_add(1);
        let modrm = ModRM::parse_modrm(self)?;
        let r32 = self.get_register32(modrm.reg as usize);
        let rm32 = self.get_rm32(&modrm)?;
        self.set_rm32(&modrm, rm32.wrapping_add(r32))
    }

    pub fn add_rm32_imm8(&mut self, modrm: &ModRM) -> (r: Result<(), EmuError>)
        requires
            old(self).wf(),
            modrm.wf(),
        ensures
            final(self).wf(),
            outcome(r, final(self)@, old(self)@.add_rm32_imm8(*modrm)),
    {
        let rm32 = self.get_rm32(modrm)?;
        if !self.code_fits(1) {
            return Err(EmuError::OutOfRange);
        }
        let imm8 = self.get_sign_code8(0) as u32;
        self.eip = self.eip.wrapping_add(1);
        self.set_rm32(modrm, rm32.wrapping_add(imm8))
    }

    pub fn sub_rm32_imm8(&mut self, modrm: &ModRM) -> (r: Result<(), EmuError>)
        requires
            old(self).wf(),
            modrm.wf(),
        ensures
            final(self).wf(),
            outcome(r, final(self)@, old(self)@.sub_rm32_imm8(*modrm)),
    {
        let rm32 = self.get_rm32(modrm)?;
        if !self.code_fits(1) {
            return Err(EmuError::OutOfRange);
        }
        let imm8 = self.get_sign_code8(0) as u32;
        self.eip = self.eip.wrapping_add(1);
        self.set_rm32(modrm, rm32.wrapping_sub(imm8))
    }

    pub fn inc_rm32(&mut self, modrm: &ModRM) -> (r: Result<(), EmuError>)
        requires
            old(self).wf(),
            modrm.wf(),
        ensures
            final(self).wf(),
            outcome(r, final(self)@, old(self)@.inc_rm32(*modrm)),
    {
        let value = self.get_rm32(modrm)?;
        self.set_rm32(modrm, value.wrapping_add(1))
    }

    pub fn short_jump(&mut self) -> (r: Result<(), EmuError>)
        requires
            old(self).wf(),
        ensures
            final(self).wf(),
            outcome(r, final(self)@, old(self)@.short_jump()),
    {
        if !self.code_fits(2) {
            return Err(EmuError::OutOfRange);
        }
        let diff = self.get_sign_code8(1) as u32;
        self.eip = self.eip.wrapping_add(diff).wrapping_add(2);
        Ok(())
    }

    pub fn near_jump(&mut self) -> (r: Result<(), EmuError>)
        requires
            old(self).wf(),
        ensures
            final(self).wf(),
            outcome(r, final(self)@, old(self)@.near_jump()),
    {
        if !self.code_fits(5) {
            return Err(EmuError::OutOfRange);
        }
        let diff = self.get_code32(1);
        self.eip = self.eip.wrapping_add(diff).wrapping_add(5);
        Ok(())
    }

    pub fn push_r32(&mut self) -> (r: Result<(), EmuError>)
        requires
            old(self).wf(),
            old(self)@.code_fits(1),
            0x50 <= old(self)@.code8(0) <= 0x57,
        ensures
            final(self).wf(),
            outcome(r, final(self)@, old(self)@.push_r32()),
    {
        let reg = self.get_code8(0) - 0x50;
        let value = self.get_register32(reg as usize);
        self.push32(value)?;
        self.eip = self.eip.wrapping_add(1);
        Ok(())
    }

    pub fn push_imm32(&mut self) -> (r: Result<(), EmuError>)
        requires
            old(self).wf(),
        ensures
            final(self).wf(),
            outcome(r, final(self)@, old(self)@.push_imm32()),
    {
        if !self.code_fits(5) {
            return Err(EmuError::OutOfRange);
        }
        let value = self.get_code32(1);
        self.push32(value)?;
        self.eip = self.eip.wrapping_add(5);
        Ok(())
    }

    pub fn push_imm8(&mut self) -> (r: Result<(), EmuError>)
        requires
            old(self).wf(),
        ensures
            final(self).wf(),
            outcome(r, final(self)@, old(self)@.push_imm8()),
    {
        if !self.code_fits(2) {
            return Err(EmuError::OutOfRange);
        }
        let value = self.get_code8(1) as u32;
        self.push32(value)?;
        self.eip = self.eip.wrapping_add(2);
        Ok(())
    }

    pub fn pop_r32(&mut self) -> (r: Result<(), EmuError>)
        requires
            old(self).wf(),
            old(self)@.code_fits(1),
            0x58 <= old(self)@.code8(0) <= 0x5F,
        ensures
            final(self).wf(),
            outcome(r, final(self)@, old(self)@.pop_r32()),
    {
        let reg = self.get_code8(0) - 0x58;
        let value = self.pop32()?;
        self.set_register32(reg as usize, value);
        self.eip = self.eip.wrapping_add(1);
        Ok(())
    }

    pub fn call_rel32(&mut self) -> (r: Result<(), EmuError>)
        requires
            old(self).wf(),
        ensures
            final(self).wf(),
            outcome(r, final(self)@, old(self)@.call_rel32()),
    {
        if !self.code_fits(5) {
            return Err(EmuError::OutOfRange);
        }
        let diff = self.get_code32(1);
        self.push32(self.eip.wrapping_add(5))?;
        self.eip = self.eip.wrapping_add(diff).wrapping_add(5);
        Ok(())
    }

    pub fn ret(&mut self) -> (r: Result<(), EmuError>)
        requires
            old(self).wf(),
        ensures
            final(self).wf(),
            outcome(r, final(self)@, old(self)@.ret()),
    {
        self.eip = self.pop32()?;
        Ok(())
    }

    pub fn leave(&mut self) -> (r: Result<(), EmuError>)
        requires
            old(self).wf(),
        ensures
            final(self).wf(),
            outcome(r, final(self)@, old(self)@.leave()),
    {
        let ebp = self.get_register32(EBP_INDEX);
        self.set_register32(ESP_INDEX, ebp);
        let value = self.pop32()?;
        self.set_register32(EBP_INDEX, value);
        self.eip = self.eip.wrapping_add(1);
        Ok(())
    }

    /// Runs handler `ins` on the instruction at the instruction pointer.
    pub fn execute(&mut self, ins: Instruction) -> (r: Result<(), EmuError>)
        requires
            old(self).wf(),
            old(self)@.code_fits(1),
            instruction_for(old(self)@.code8(0)) == Some(ins),
        ensures
            final(self).wf(),
            outcome(r, final(self)@, old(self)@.execute(ins)),
    {
        match ins {
            Instruction::AddRm32R32 => self.add_rm32_r32(),
            Instruction::PushR32 => self.push_r32(),
            Instruction::PopR32 => self.pop_r32(),
            Instruction::PushImm32 => self.push_imm32(),
            Instruction::PushImm8 => self.push_imm8(),
            Instruction::Code83 => self.code_83(),
            Instruction::MovRm32R32 => self.mov_rm32_r32(),
            Instruction::MovR32Rm32 => self.mov_r32_rm32(),
            Instruction::MovR32Imm32 => self.mov_r32_imm32(),
            Instruction::Ret => self.ret(),
            Instruction::MovRm32Imm32 => self.mov_rm32_imm32(),
            Instruction::Leave => self.leave(),
            Instruction::CallRel32 => self.call_rel32(),
            Instruction::NearJump => self.near_jump(),
            Instruction::ShortJump => self.short_jump(),
            Instruction::CodeFF => self.code_ff(),
        }
    }

    /// Fetches the opcode at the instruction pointer, looks its handler up in
    /// `instructions` and runs it. Returns whether the instruction pointer
    /// is then 0, the end of the program. A fetch outside the memory or an
    /// opcode without a handler fails and changes nothing.
    pub fn step(&mut self, instructions: &Vec<Option<Instruction>>) -> (r: Result<bool, EmuError>)
        requires
            old(self).wf(),
            is_dispatch_table(instructions@),
        ensures
            final(self).wf(),
            match old(self)@.step() {
                Ok(m) => r == Ok::<bool, EmuError>(m.eip == 0) && final(self)@ == m,
                Err(e) => r == Err::<bool, EmuError>(e),
            },
            (!old(self)@.code_fits(1) || instruction_for(old(self)@.code8(0)) is None)
                ==> final(self)@ == old(self)@,
    {
        if !self.code_fits(1) {
            return Err(EmuError::OutOfRange);
        }
        let opcode = self.get_code8(0);
        match instructions[opcode as usize] {
            None => Err(EmuError::UnsupportedOpcode(opcode)),
            Some(ins) => {
                self.execute(ins)?;
                Ok(self.eip == 0)
            },
        }
    }
}

} // verus!
