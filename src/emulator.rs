//! Addressable machine state: the register file, flags, instruction pointer
//! and a flat little-endian byte memory.
use vstd::prelude::*;

verus! {

/// Number of general-purpose registers.
pub const REGISTER_COUNT: usize = 8;

/// Index of the stack pointer in the register file.
pub const ESP_INDEX: usize = 4;

/// Index of the frame pointer in the register file.
pub const EBP_INDEX: usize = 5;

/// The general-purpose registers, in encoding order.
#[derive(Debug, Clone, Copy, PartialEq, Eq, Structural)]
pub enum Register {
    EAX,
    ECX,
    EDX,
    EBX,
    ESP,
    EBP,
    ESI,
    EDI,
}

/// The fatal conditions of the engine; execution halts on the first one.
#[derive(Debug, Clone, Copy, PartialEq, Eq, Structural)]
pub enum EmuError {
    /// No handler is registered for this opcode byte.
    UnsupportedOpcode(u8),
    /// A group opcode (first field) met an unimplemented ModRM `reg` extension (second field).
    UnsupportedExtension(u8, u8),
    /// A memory operand with this `mode` and `rm` cannot be addressed (SIB escape, or mode 3).
    UnsupportedAddressing(u8, u8),
    /// A read or write fell outside the memory.
    OutOfRange,
}

impl Register {
    /// Position of the register in the register file.
    pub open spec fn id(self) -> int {
        match self {
            Register::EAX => 0,
            Register::ECX => 1,
            Register::EDX => 2,
            Register::EBX => 3,
            Register::ESP => 4,
            Register::EBP => 5,
            Register::ESI => 6,
            Register::EDI => 7,
        }
    }

    pub open spec fn spec_name(self) -> Seq<char> {
        match self {
            Register::EAX => "EAX"@,
            Register::ECX => "ECX"@,
            Register::EDX => "EDX"@,
            Register::EBX => "EBX"@,
            Register::ESP => "ESP"@,
            Register::EBP => "EBP"@,
            Register::ESI => "ESI"@,
            Register::EDI => "EDI"@,
        }
    }

    pub fn index(self) -> (r: usize)
        ensures
            r == self.id(),
    {
        match self {
            Register::EAX => 0,
            Register::ECX => 1,
            Register::EDX => 2,
            Register::EBX => 3,
            Register::ESP => 4,
            Register::EBP => 5,
            Register::ESI => 6,
            Register::EDI => 7,
        }
    }

    /// The register at position `i` of the register file, if there is one.
    pub fn from_index(i: usize) -> (r: Option<Register>)
        ensures
            r is Some <==> i < REGISTER_COUNT,
            r matches Some(g) ==> g.id() == i,
    {
        match i {
            0 => Some(Register::EAX),
            1 => Some(Register::ECX),
            2 => Some(Register::EDX),
            3 => Some(Register::EBX),
            4 => Some(Register::ESP),
            5 => Some(Register::EBP),
            6 => Some(Register::ESI),
            7 => Some(Register::EDI),
            _ => None,
        }
    }

    /// The register's mnemonic in upper case.
    pub fn name(self) -> (r: &'static str)
        ensures
            r@ == self.spec_name(),
    {
        match self {
            Register::EAX => "EAX",
            Register::ECX => "ECX",
            Register::EDX => "EDX",
            Register::EBX => "EBX",
            Register::ESP => "ESP",
            Register::EBP => "EBP",
            Register::ESI => "ESI",
            Register::EDI => "EDI",
        }
    }
}

/// 32-bit addition modulo 2^32.
pub open spec fn wadd(a: u32, b: u32) -> u32 {
    if a + b > u32::MAX {
        (a + b - 0x1_0000_0000) as u32
    } else {
        (a + b) as u32
    }
}

/// 32-bit subtraction modulo 2^32.
pub open spec fn wsub(a: u32, b: u32) -> u32 {
    if a - b < 0 {
        (a - b + 0x1_0000_0000) as u32
    } else {
        (a - b) as u32
    }
}

/// The byte of `v` that starts at bit `shift`.
pub open spec fn byte_of(v: u32, shift: u32) -> u8 {
    ((v >> shift) & 0xff) as u8
}

/// The 32-bit value whose little-endian bytes are `b0 b1 b2 b3`.
pub open spec fn le_u32(b0: u8, b1: u8, b2: u8, b3: u8) -> u32 {
    (b0 as u32) | ((b1 as u32) << 8u32) | ((b2 as u32) << 16u32) | ((b3 as u32) << 24u32)
}

/// The little-endian 32-bit value stored at `a`.
pub open spec fn le32(mem: Seq<u8>, a: int) -> u32 {
    le_u32(mem[a], mem[a + 1], mem[a + 2], mem[a + 3])
}

/// `mem` with the little-endian bytes of `v` written at `a .. a + 4`.
pub open spec fn store32(mem: Seq<u8>, a: int, v: u32) -> Seq<u8> {
    mem.update(a, byte_of(v, 0)).update(a + 1, byte_of(v, 8)).update(a + 2, byte_of(v, 16)).update(
        a + 3,
        byte_of(v, 24),
    )
}

/// Splitting a word into its four bytes and joining them gives it back.
pub proof fn lemma_le_u32_bytes(v: u32)
    ensures
        le_u32(byte_of(v, 0), byte_of(v, 8), byte_of(v, 16), byte_of(v, 24)) == v,
{
    assert(((((v >> 0u32) & 0xff) as u8) as u32) | (((((v >> 8u32) & 0xff) as u8) as u32) << 8u32)
        | (((((v >> 16u32) & 0xff) as u8) as u32) << 16u32) | (((((v >> 24u32) & 0xff) as u8) as u32)
        << 24u32) == v) by (bit_vector);
}

/// The abstract state of a machine.
pub struct Machine {
    pub regs: Seq<u32>,
    pub eflags: u32,
    pub mem: Seq<u8>,
    pub eip: u32,
}

impl Machine {
    pub open spec fn wf(self) -> bool {
        self.regs.len() == REGISTER_COUNT
    }

    /// The `n` bytes from `a` lie inside the memory.
    pub open spec fn holds(self, a: int, n: int) -> bool {
        0 <= a && a + n <= self.mem.len()
    }

    /// The `n` bytes from the instruction pointer lie inside the memory.
    pub open spec fn code_fits(self, n: int) -> bool {
        self.holds(self.eip as int, n)
    }

    pub open spec fn code8(self, i: int) -> u8 {
        self.mem[self.eip + i]
    }

    pub open spec fn code32(self, i: int) -> u32 {
        le32(self.mem, self.eip + i)
    }

    pub open spec fn with_reg(self, r: int, v: u32) -> Machine {
        Machine { regs: self.regs.update(r, v), ..self }
    }

    pub open spec fn with_eip(self, eip: u32) -> Machine {
        Machine { eip, ..self }
    }

    /// The state with the instruction pointer moved `n` bytes on.
    pub open spec fn advance(self, n: u32) -> Machine {
        self.with_eip(wadd(self.eip, n))
    }

    /// The 8-bit register `i`: the low byte of register `i` for `i < 4`,
    /// else the second byte of register `i - 4`.
    pub open spec fn reg8(self, i: int) -> u8 {
        if i < 4 {
            (self.regs[i] & 0xff) as u8
        } else {
            ((self.regs[i - 4] >> 8u32) & 0xff) as u8
        }
    }

    pub open spec fn with_reg8(self, i: int, v: u8) -> Machine {
        if i < 4 {
            self.with_reg(i, (self.regs[i] & !0xffu32) | (v as u32))
        } else {
            self.with_reg(i - 4, (self.regs[i - 4] & !0xff00u32) | ((v as u32) << 8u32))
        }
    }

    pub open spec fn with_mem8(self, a: int, v: u8) -> Machine {
        Machine { mem: self.mem.update(a, v), ..self }
    }

    pub open spec fn with_mem32(self, a: int, v: u32) -> Machine {
        Machine { mem: store32(self.mem, a, v), ..self }
    }

    /// Push: the stack pointer drops by 4, then `v` is stored at the new top.
    pub open spec fn push32(self, v: u32) -> Result<Machine, EmuError> {
        let a = wsub(self.regs[ESP_INDEX as int], 4);
        if self.holds(a as int, 4) {
            Ok(self.with_reg(ESP_INDEX as int, a).with_mem32(a as int, v))
        } else {
            Err(EmuError::OutOfRange)
        }
    }

    /// Pop: the value at the top is loaded, then the stack pointer rises by 4.
    pub open spec fn pop32(self) -> Result<(Machine, u32), EmuError> {
        let a = self.regs[ESP_INDEX as int];
        if self.holds(a as int, 4) {
            Ok((self.with_reg(ESP_INDEX as int, wadd(a, 4)), le32(self.mem, a as int)))
        } else {
            Err(EmuError::OutOfRange)
        }
    }
}

pub struct Emulator {
    pub registers: Vec<u32>,
    pub eflags: u32,
    pub memory: Vec<u8>,
    pub eip: u32,
}

impl View for Emulator {
    type V = Machine;

    open spec fn view(&self) -> Machine {
        Machine { regs: self.registers@, eflags: self.eflags, mem: self.memory@, eip: self.eip }
    }
}

impl Emulator {
    /// Exactly eight registers, and a memory that a `usize` can index.
    pub open spec fn wf(&self) -> bool {
        self@.wf() && self.memory@.len() <= usize::MAX
    }

    /// A machine with `size` bytes of zeroed memory, every register zero but
    /// the stack pointer, which holds `esp`.
    pub fn create(size: usize, eip: u32, esp: u32) -> (r: Emulator)
        ensures
            r.wf(),
            r@.regs == seq![0u32, 0, 0, 0, esp, 0, 0, 0],
            r@.mem == Seq::new(size as nat, |i: int| 0u8),
            r@.eip == eip,
            r@.eflags == 0,
    {
        let mut registers: Vec<u32> = Vec::new();
        let mut i: usize = 0;
        while i < REGISTER_COUNT
            invariant
                i <= REGISTER_COUNT,
                registers@.len() == i,
                forall|k: int| 0 <= k < i ==> registers@[k] == (if k == ESP_INDEX { esp } else { 0u32 }),
            decreases REGISTER_COUNT - i,
        {
            if i == ESP_INDEX {
                registers.push(esp);
            } else {
                registers.push(0);
            }
            i = i + 1;
        }
        let mut memory: Vec<u8> = Vec::new();
        let mut j: usize = 0;
        while j < size
            invariant
                j <= size,
                memory@ == Seq::new(j as nat, |i: int| 0u8),
            decreases size - j,
        {
            memory.push(0);
            j = j + 1;
        }
        assert(registers@ =~= seq![0u32, 0, 0, 0, esp, 0, 0, 0]);
        Emulator { registers, eflags: 0, memory, eip }
    }

    /// Copies `image` into memory from `offset` on.
    pub fn load(&mut self, offset: usize, image: &[u8]) -> (r: Result<(), EmuError>)
        requires
            old(self).wf(),
        ensures
            final(self).wf(),
            offset + image@.len() <= old(self)@.mem.len() ==> r is Ok && final(self)@ == (Machine {
                mem: old(self)@.mem.take(offset as int) + image@ + old(self)@.mem.skip(
                    offset + image@.len(),
                ),
                ..old(self)@
            }),
            offset + image@.len() > old(self)@.mem.len() ==> r == Err::<(), EmuError>(
                EmuError::OutOfRange,
            ) && final(self)@ == old(self)@,
    {
        if offset > self.memory.len() || image.len() > self.memory.len() - offset {
            return Err(EmuError::OutOfRange);
        }
        let ghost before = self.memory@;
        let mut k: usize = 0;
        while k < image.len()
            invariant
                offset + image@.len() <= before.len(),
                k <= image@.len(),
                self.memory@.len() == before.len(),
                before.len() <= usize::MAX,
                self.registers == old(self).registers,
                self.eip == old(self).eip,
                self.eflags == old(self).eflags,
                before == old(self).memory@,
                forall|a: int|
                    0 <= a < self.memory@.len() ==> #[trigger] self.memory@[a] == if offset <= a
                        < offset + k {
                        image@[a - offset]
                    } else {
                        before[a]
                    },
            decreases image@.len() - k,
        {
            self.memory.set(offset + k, image[k]);
            k = k + 1;
        }
        assert(self.memory@ =~= before.take(offset as int) + image@ + before.skip(
            offset + image@.len(),
        ));
        Ok(())
    }

    /// The opcode-stream byte `index` bytes past the instruction pointer.
    pub fn get_code8(&self, index: usize) -> (r: u8)
        requires
            self.wf(),
            self@.code_fits(index + 1),
        ensures
            r == self@.code8(index as int),
    {
        self.memory[self.eip as usize + index]
    }

    /// The same byte as `get_code8`, read as a signed value.
    pub fn get_sign_code8(&self, index: usize) -> (r: i8)
        requires
            self.wf(),
            self@.code_fits(index + 1),
        ensures
            r == self@.code8(index as int) as i8,
    {
        self.memory[self.eip as usize + index] as i8
    }

    /// The little-endian word `index` bytes past the instruction pointer.
    pub fn get_code32(&self, index: usize) -> (r: u32)
        requires
            self.wf(),
            self@.code_fits(index + 4),
        ensures
            r == self@.code32(index as int),
    {
        let p = self.eip as usize + index;
        self.get_memory32(p)
    }

    /// The same word as `get_code32`, read as a signed value.
    pub fn get_sign_code32(&self, index: usize) -> (r: i32)
        requires
            self.wf(),
            self@.code_fits(index + 4),
        ensures
            r == self@.code32(index as int) as i32,
    {
        self.get_code32(index) as i32
    }

    /// Whether `n` bytes from the instruction pointer lie inside the memory.
    pub fn code_fits(&self, n: usize) -> (r: bool)
        ensures
            r == self@.code_fits(n as int),
    {
        self.memory.len() >= n && self.eip as usize <= self.memory.len() - n
    }

    /// Whether `n` bytes from `address` lie inside the memory.
    pub fn holds(&self, address: u32, n: usize) -> (r: bool)
        ensures
            r == self@.holds(address as int, n as int),
    {
        self.memory.len() >= n && address as usize <= self.memory.len() - n
    }

    pub fn get_register8(&self, index: usize) -> (r: u8)
        requires
            self.wf(),
            index < REGISTER_COUNT,
        ensures
            r == self@.reg8(index as int),
    {
        if index < 4 {
            (self.registers[index] & 0xff) as u8
        } else {
            ((self.registers[index - 4] >> 8) & 0xff) as u8
        }
    }

    pub fn set_register8(&mut self, index: usize, value: u8)
        requires
            old(self).wf(),
            index < REGISTER_COUNT,
        ensures
            final(self)@ == old(self)@.with_reg8(index as int, value),
    {
        if index < 4 {
            let v = (self.registers[index] & !0xffu32) | (value as u32);
            self.registers.set(index, v);
        } else {
            let v = (self.registers[index - 4] & !0xff00u32) | ((value as u32) << 8);
            self.registers.set(index - 4, v);
        }
    }

    pub fn get_register32(&self, index: usize) -> (r: u32)
        requires
            self.wf(),
            index < REGISTER_COUNT,
        ensures
            r == self@.regs[index as int],
    {
        self.registers[index]
    }

    pub fn set_register32(&mut self, index: usize, value: u32)
        requires
            old(self).wf(),
            index < REGISTER_COUNT,
        ensures
            final(self)@ == old(self)@.with_reg(index as int, value),
    {
        self.registers.set(index, value);
    }

    pub fn get_memory8(&self, address: usize) -> (r: u8)
        requires
            self.wf(),
            address < self@.mem.len(),
        ensures
            r == self@.mem[address as int],
    {
        self.memory[address]
    }

    pub fn set_memory8(&mut self, address: usize, value: u8)
        requires
            old(self).wf(),
            address < old(self)@.mem.len(),
        ensures
            final(self)@ == old(self)@.with_mem8(address as int, value),
    {
        self.memory.set(address, value);
    }

    /// Reads four bytes from `address` on, least significant first.
    pub fn get_memory32(&self, address: usize) -> (r: u32)
        requires
            self.wf(),
            self@.holds(address as int, 4),
        ensures
            r == le32(self@.mem, address as int),
    {
        let b0 = self.get_memory8(address) as u32;
        let b1 = self.get_memory8(address + 1) as u32;
        let b2 = self.get_memory8(address + 2) as u32;
        let b3 = self.get_memory8(address + 3) as u32;
        b0 | (b1 << 8) | (b2 << 16) | (b3 << 24)
    }

    /// Writes the four bytes of `value` from `address` on, least significant first.
    pub fn set_memory32(&mut self, address: usize, value: u32)
        requires
            old(self).wf(),
            old(self)@.holds(address as int, 4),
        ensures
            final(self)@ == old(self)@.with_mem32(address as int, value),
    {
        assert(value >> 0u32 == value) by (bit_vector);
        self.set_memory8(address, (value & 0xff) as u8);
        self.set_memory8(address + 1, ((value >> 8) & 0xff) as u8);
        self.set_memory8(address + 2, ((value >> 16) & 0xff) as u8);
        self.set_memory8(address + 3, ((value >> 24) & 0xff) as u8);
        assert(self.memory@ =~= store32(old(self).memory@, address as int, value));
    }

    /// Pushes `value` on the stack; fails, changing nothing, where the new
    /// top of stack lies outside the memory.
    pub fn push32(&mut self, value: u32) -> (r: Result<(), EmuError>)
        requires
            old(self).wf(),
        ensures
            match old(self)@.push32(value) {
                Ok(m) => r is Ok && final(self)@ == m,
                Err(e) => r == Err::<(), EmuError>(e) && final(self)@ == old(self)@,
            },
    {
        let address = self.get_register32(ESP_INDEX).wrapping_sub(4);
        if !self.holds(address, 4) {
            return Err(EmuError::OutOfRange);
        }
        self.set_register32(ESP_INDEX, address);
        self.set_memory32(address as usize, value);
        Ok(())
    }

    /// Pops the word at the top of the stack; fails, changing nothing, where
    /// it lies outside the memory.
    pub fn pop32(&mut self) -> (r: Result<u32, EmuError>)
        requires
            old(self).wf(),
        ensures
            match old(self)@.pop32() {
                Ok((m, v)) => r == Ok::<u32, EmuError>(v) && final(self)@ == m,
                Err(e) => r == Err::<u32, EmuError>(e) && final(self)@ == old(self)@,
            },
    {
        let address = self.get_register32(ESP_INDEX);
        if !self.holds(address, 4) {
            return Err(EmuError::OutOfRange);
        }
        let value = self.get_memory32(address as usize);
        self.set_register32(ESP_INDEX, address.wrapping_add(4));
        Ok(value)
    }
}

/// Writing a 32-bit register and reading it back gives the value written;
/// the other registers keep theirs.
pub proof fn lemma_register_round_trip(m: Machine, r: int, v: u32)
    requires
        m.wf(),
        0 <= r < REGISTER_COUNT,
    ensures
        m.with_reg(r, v).wf(),
        m.with_reg(r, v).regs[r] == v,
        forall|k: int| 0 <= k < REGISTER_COUNT && k != r ==> #[trigger] m.with_reg(r, v).regs[k] == m.regs[k],
{
}

/// Writing an 8-bit register and reading it back gives the value written.
pub proof fn lemma_register8_round_trip(m: Machine, i: int, v: u8)
    requires
        m.wf(),
        0 <= i < REGISTER_COUNT,
    ensures
        m.with_reg8(i, v).wf(),
        m.with_reg8(i, v).reg8(i) == v,
{
    if i < 4 {
        let x = m.regs[i];
        assert((((x & !0xffu32) | (v as u32)) & 0xff) as u8 == v) by (bit_vector);
    } else {
        let x = m.regs[i - 4];
        assert(((((x & !0xff00u32) | ((v as u32) << 8u32)) >> 8u32) & 0xff) as u8 == v)
            by (bit_vector);
    }
}

/// Storing a word and loading it from the same address gives it back; the
/// bytes go least significant first, and no other byte changes.
pub proof fn lemma_memory32_round_trip(mem: Seq<u8>, a: int, v: u32)
    requires
        0 <= a,
        a + 4 <= mem.len(),
    ensures
        store32(mem, a, v).len() == mem.len(),
        le32(store32(mem, a, v), a) == v,
        store32(mem, a, v)[a] == (v & 0xff) as u8,
        store32(mem, a, v)[a + 1] == ((v >> 8u32) & 0xff) as u8,
        store32(mem, a, v)[a + 2] == ((v >> 16u32) & 0xff) as u8,
        store32(mem, a, v)[a + 3] == ((v >> 24u32) & 0xff) as u8,
        forall|k: int|
            0 <= k < mem.len() && !(a <= k < a + 4) ==> #[trigger] store32(mem, a, v)[k] == mem[k],
{
    lemma_le_u32_bytes(v);
    assert(v >> 0u32 == v) by (bit_vector);
}

/// A push followed by a pop gives back the value pushed and restores the
/// register file, stack pointer included.
pub proof fn lemma_push_pop_round_trip(m: Machine, v: u32)
    requires
        m.wf(),
        m.push32(v) is Ok,
    ensures
        ({
            let s = m.push32(v)->Ok_0;
            &&& s.pop32() is Ok
            &&& s.pop32()->Ok_0.1 == v
            &&& s.pop32()->Ok_0.0.regs == m.regs
            &&& s.pop32()->Ok_0.0.regs[ESP_INDEX as int] == m.regs[ESP_INDEX as int]
        }),
{
    let a = wsub(m.regs[ESP_INDEX as int], 4);
    lemma_memory32_round_trip(m.mem, a as int, v);
    let s = m.push32(v)->Ok_0;
    assert(s.pop32()->Ok_0.0.regs =~= m.regs);
}

} // verus!
