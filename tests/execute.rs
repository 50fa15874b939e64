use x86_emu::emulator::{EmuError, Emulator, EBP_INDEX, ESP_INDEX};
use x86_emu::instruction::{init_instructions, instruction_for_opcode, Instruction};

const BASE: u32 = 0x100;
const STACK: u32 = 0x200;

fn machine_with(code: &[u8]) -> Emulator {
    let mut emu = Emulator::create(0x400, BASE, STACK);
    emu.load(BASE as usize, code).unwrap();
    emu
}

fn run(emu: &mut Emulator, steps: usize) -> Result<bool, EmuError> {
    let table = init_instructions();
    let mut done = false;
    for _ in 0..steps {
        done = emu.step(&table)?;
    }
    Ok(done)
}

#[test]
fn mov_eax_imm32() {
    let mut emu = machine_with(&[0xB8, 0x05, 0x00, 0x00, 0x00]);
    assert_eq!(run(&mut emu, 1), Ok(false));
    assert_eq!(emu.get_register32(0), 5);
    assert_eq!(emu.eip, BASE + 5);
}

#[test]
fn mov_edi_imm32() {
    let mut emu = machine_with(&[0xBF, 0x78, 0x56, 0x34, 0x12]);
    assert_eq!(run(&mut emu, 1), Ok(false));
    assert_eq!(emu.get_register32(7), 0x1234_5678);
    assert_eq!(emu.get_register32(0), 0);
}

#[test]
fn push_imm8_then_pop_eax() {
    let mut emu = machine_with(&[0x6A, 0x07, 0x58]);
    run(&mut emu, 1).unwrap();
    assert_eq!(emu.get_register32(ESP_INDEX), STACK - 4);
    assert_eq!(emu.get_memory32((STACK - 4) as usize), 7);
    run(&mut emu, 1).unwrap();
    assert_eq!(emu.get_register32(0), 7);
    assert_eq!(emu.get_register32(ESP_INDEX), STACK);
    assert_eq!(emu.eip, BASE + 3);
}

#[test]
fn push_imm8_is_zero_extended() {
    let mut emu = machine_with(&[0x6A, 0xFF]);
    run(&mut emu, 1).unwrap();
    assert_eq!(emu.get_memory32((STACK - 4) as usize), 0xFF);
}

#[test]
fn call_then_ret() {
    let mut emu = machine_with(&[0xE8, 0x00, 0x00, 0x00, 0x00, 0xC3]);
    run(&mut emu, 1).unwrap();
    assert_eq!(emu.eip, BASE + 5);
    assert_eq!(emu.get_register32(ESP_INDEX), STACK - 4);
    assert_eq!(emu.get_memory32((STACK - 4) as usize), BASE + 5);
    run(&mut emu, 1).unwrap();
    assert_eq!(emu.eip, BASE + 5);
    assert_eq!(emu.get_register32(ESP_INDEX), STACK);
}

#[test]
fn call_forward_and_backward() {
    let mut emu = machine_with(&[0xE8, 0x10, 0x00, 0x00, 0x00]);
    run(&mut emu, 1).unwrap();
    assert_eq!(emu.eip, BASE + 0x15);
    let mut emu = machine_with(&[0xE8, 0xF0, 0xFF, 0xFF, 0xFF]);
    run(&mut emu, 1).unwrap();
    assert_eq!(emu.eip, BASE + 5 - 0x10);
    assert_eq!(emu.get_memory32((STACK - 4) as usize), BASE + 5);
}

#[test]
fn unknown_opcode_is_reported_and_changes_nothing() {
    let mut emu = machine_with(&[0x90]);
    emu.set_register32(1, 42);
    let before = emu.registers.clone();
    assert_eq!(run(&mut emu, 1), Err(EmuError::UnsupportedOpcode(0x90)));
    assert_eq!(emu.registers, before);
    assert_eq!(emu.eip, BASE);
}

#[test]
fn add_imm8_to_eax() {
    let mut emu = machine_with(&[0x83, 0xC0, 0x03]);
    emu.set_register32(0, 2);
    assert_eq!(run(&mut emu, 1), Ok(false));
    assert_eq!(emu.get_register32(0), 5);
    assert_eq!(emu.eip, BASE + 3);
}

#[test]
fn add_negative_imm8_wraps() {
    let mut emu = machine_with(&[0x83, 0xC1, 0xFF]);
    emu.set_register32(1, 0);
    run(&mut emu, 1).unwrap();
    assert_eq!(emu.get_register32(1), 0xFFFF_FFFF);
}

#[test]
fn sub_imm8_from_memory_operand() {
    // sub dword [ebp-4], 0x10
    let mut emu = machine_with(&[0x83, 0x6D, 0xFC, 0x10]);
    emu.set_register32(EBP_INDEX, 0x300);
    emu.set_memory32(0x2FC, 0x18);
    run(&mut emu, 1).unwrap();
    assert_eq!(emu.get_memory32(0x2FC), 8);
    assert_eq!(emu.eip, BASE + 4);
}

#[test]
fn sub_negative_imm8_adds() {
    let mut emu = machine_with(&[0x83, 0xE8, 0xFE]);
    emu.set_register32(0, 10);
    run(&mut emu, 1).unwrap();
    assert_eq!(emu.get_register32(0), 12);
}

#[test]
fn group_83_unknown_extension() {
    let mut emu = machine_with(&[0x83, 0xC8, 0x01]);
    assert_eq!(run(&mut emu, 1), Err(EmuError::UnsupportedExtension(0x83, 1)));
}

#[test]
fn inc_register_and_memory() {
    let mut emu = machine_with(&[0xFF, 0xC2, 0xFF, 0x05, 0x80, 0x03, 0x00, 0x00]);
    emu.set_register32(2, 0xFFFF_FFFF);
    emu.set_memory32(0x380, 41);
    run(&mut emu, 2).unwrap();
    assert_eq!(emu.get_register32(2), 0);
    assert_eq!(emu.get_memory32(0x380), 42);
    assert_eq!(emu.eip, BASE + 8);
}

#[test]
fn group_ff_unknown_extension() {
    let mut emu = machine_with(&[0xFF, 0xF0]);
    assert_eq!(run(&mut emu, 1), Err(EmuError::UnsupportedExtension(0xFF, 6)));
}

#[test]
fn mov_between_registers_and_memory() {
    // mov [ebx+8], ecx ; mov edx, [ebx+8] ; mov dword [ebx], 0x11223344
    let code = [0x89, 0x4B, 0x08, 0x8B, 0x53, 0x08, 0xC7, 0x03, 0x44, 0x33, 0x22, 0x11];
    let mut emu = machine_with(&code);
    emu.set_register32(3, 0x300);
    emu.set_register32(1, 0xABCD);
    run(&mut emu, 3).unwrap();
    assert_eq!(emu.get_memory32(0x308), 0xABCD);
    assert_eq!(emu.get_register32(2), 0xABCD);
    assert_eq!(emu.get_memory32(0x300), 0x1122_3344);
    assert_eq!(emu.eip, BASE + 12);
}

#[test]
fn mov_register_to_register() {
    let mut emu = machine_with(&[0x89, 0xE5]);
    run(&mut emu, 1).unwrap();
    assert_eq!(emu.get_register32(EBP_INDEX), STACK);
    assert_eq!(emu.eip, BASE + 2);
}

#[test]
fn add_register_to_memory() {
    let mut emu = machine_with(&[0x01, 0x06]);
    emu.set_register32(6, 0x310);
    emu.set_register32(0, 5);
    emu.set_memory32(0x310, 0xFFFF_FFFE);
    run(&mut emu, 1).unwrap();
    assert_eq!(emu.get_memory32(0x310), 3);
}

#[test]
fn sib_memory_operand_is_unsupported() {
    let mut emu = machine_with(&[0x8B, 0x04, 0x24]);
    assert_eq!(run(&mut emu, 1), Err(EmuError::UnsupportedAddressing(0, 4)));
}

#[test]
fn memory_operand_outside_memory() {
    let mut emu = machine_with(&[0x89, 0x05, 0xFE, 0x03, 0x00, 0x00]);
    assert_eq!(run(&mut emu, 1), Err(EmuError::OutOfRange));
    assert_eq!(emu.get_memory8(0x3FE), 0);
}

#[test]
fn short_jump_back_and_forward() {
    let mut emu = machine_with(&[0xEB, 0xFE]);
    run(&mut emu, 3).unwrap();
    assert_eq!(emu.eip, BASE);
    let mut emu = machine_with(&[0xEB, 0x10]);
    run(&mut emu, 1).unwrap();
    assert_eq!(emu.eip, BASE + 0x12);
}

#[test]
fn near_jump_relative() {
    let mut emu = machine_with(&[0xE9, 0x00, 0x01, 0x00, 0x00]);
    run(&mut emu, 1).unwrap();
    assert_eq!(emu.eip, BASE + 0x105);
    let mut emu = machine_with(&[0xE9, 0xFB, 0xFF, 0xFF, 0xFF]);
    run(&mut emu, 1).unwrap();
    assert_eq!(emu.eip, BASE);
}

#[test]
fn push_register_and_imm32() {
    let mut emu = machine_with(&[0x53, 0x68, 0x78, 0x56, 0x34, 0x12]);
    emu.set_register32(3, 0xBEEF);
    run(&mut emu, 2).unwrap();
    assert_eq!(emu.get_memory32((STACK - 4) as usize), 0xBEEF);
    assert_eq!(emu.get_memory32((STACK - 8) as usize), 0x1234_5678);
    assert_eq!(emu.get_register32(ESP_INDEX), STACK - 8);
    assert_eq!(emu.eip, BASE + 6);
}

#[test]
fn leave_restores_frame() {
    let mut emu = machine_with(&[0xC9]);
    emu.set_register32(EBP_INDEX, 0x1F0);
    emu.set_memory32(0x1F0, 0x1FC);
    run(&mut emu, 1).unwrap();
    assert_eq!(emu.get_register32(ESP_INDEX), 0x1F4);
    assert_eq!(emu.get_register32(EBP_INDEX), 0x1FC);
    assert_eq!(emu.eip, BASE + 1);
}

#[test]
fn ret_to_zero_ends_program() {
    let mut emu = machine_with(&[0xC3]);
    emu.push32(0).unwrap();
    assert_eq!(run(&mut emu, 1), Ok(true));
    assert_eq!(emu.eip, 0);
}

#[test]
fn fetch_outside_memory_fails() {
    let mut emu = Emulator::create(0x10, 0x10, 0);
    assert_eq!(run(&mut emu, 1), Err(EmuError::OutOfRange));
    assert_eq!(emu.eip, 0x10);
}

#[test]
fn truncated_immediate_fails() {
    let mut emu = Emulator::create(0x10, 0x0C, 0);
    emu.load(0x0C, &[0xB8, 1, 2, 3]).unwrap();
    assert_eq!(run(&mut emu, 1), Err(EmuError::OutOfRange));
    assert_eq!(emu.get_register32(0), 0);
}

#[test]
fn dispatch_table_entries() {
    let table = init_instructions();
    assert_eq!(table.len(), 256);
    assert_eq!(table[0x01], Some(Instruction::AddRm32R32));
    for i in 0..8 {
        assert_eq!(table[0x50 + i], Some(Instruction::PushR32));
        assert_eq!(table[0x58 + i], Some(Instruction::PopR32));
        assert_eq!(table[0xB8 + i], Some(Instruction::MovR32Imm32));
    }
    assert_eq!(table[0xC3], Some(Instruction::Ret));
    assert_eq!(table[0xFF], Some(Instruction::CodeFF));
    assert_eq!(table[0x90], None);
    assert_eq!(table[0x00], None);
    let filled = table.iter().filter(|e| e.is_some()).count();
    assert_eq!(filled, 37);
    assert_eq!(instruction_for_opcode(0xEB), Some(Instruction::ShortJump));
}

#[test]
fn small_program_runs_to_completion() {
    // push ebp; mov ebp, esp; mov eax, 40; add eax, 2; leave; ret (to 0)
    let code = [0x55, 0x89, 0xE5, 0xB8, 0x28, 0x00, 0x00, 0x00, 0x83, 0xC0, 0x02, 0xC9, 0xC3];
    let mut emu = machine_with(&code);
    emu.push32(0).unwrap();
    let table = init_instructions();
    let mut steps = 0;
    loop {
        steps += 1;
        if emu.step(&table).unwrap() {
            break;
        }
    }
    assert_eq!(steps, 6);
    assert_eq!(emu.get_register32(0), 42);
    assert_eq!(emu.get_register32(ESP_INDEX), STACK);
    assert_eq!(emu.get_register32(EBP_INDEX), 0);
}
