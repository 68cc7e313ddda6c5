use arm7tdmi::bus::{Fault, Write};
use arm7tdmi::cpu::{Cause, Cpu, Halt, Mode, Pipeline, Register, LR, PC};
use arm7tdmi::decode::DecodeError;
use arm7tdmi::execute::ExecuteError;
use arm7tdmi::instruction::EncodedInstruction;
use arm7tdmi::interrupt_controller::{Input, InterruptController};
use arm7tdmi::memory_map::MemoryMap;
use arm7tdmi::rom::Rom;

/// MOV R0, R0.
const NOP: u32 = 0xE1A0_0000;

fn machine(program: &[u32]) -> Cpu {
    let mut bios = vec![0u8; 0x4000];
    for (i, word) in program.iter().enumerate() {
        bios[4 * i..4 * i + 4].copy_from_slice(&word.to_le_bytes());
    }
    let rom = vec![0x01, 0x20, 0x02, 0x21];
    Cpu::new(MemoryMap::new(Rom::new(bios), Rom::new(rom), InterruptController::new()))
}

fn raise_interrupt(cpu: &mut Cpu) {
    assert_eq!(cpu.memory.write_halfword(0x0400_0200, 1), Ok(()));
    cpu.memory.interrupts.assert_input(Input::VBlank);
    assert!(cpu.memory.interrupts.is_asserted());
}

#[test]
fn a_new_processor() {
    let cpu = machine(&[]);
    assert_eq!(cpu.cpsr.to_bits(), 0x1F);
    assert_eq!(cpu.spsr.to_bits(), 0x1F);
    assert_eq!(cpu.registers.mode(), Mode::System);
    assert_eq!(cpu.pipeline, Pipeline(None, None));
    for index in 0..16 {
        assert_eq!(cpu.registers.read(Register(index)), 0);
    }
}

#[test]
fn well_formed_compares_the_two_modes() {
    let mut cpu = machine(&[]);
    assert!(cpu.well_formed());
    cpu.registers.set_mode(Mode::IRQ);
    assert!(!cpu.well_formed());
    cpu.cpsr.set_mode(Mode::IRQ);
    assert!(cpu.well_formed());
    cpu.cpsr.set_bits(0..5, 0);
    assert!(!cpu.well_formed());
}

#[test]
fn the_pipeline_fills_in_two_ticks() {
    // MOV R1, PC
    let mut cpu = machine(&[0xE1A0_100F, 0xE1A0_200F]);
    assert_eq!(cpu.tick(), Ok(()));
    assert_eq!(cpu.pipeline, Pipeline(Some(0), None));
    assert_eq!(cpu.registers.read(Register(PC)), 4);
    assert_eq!(cpu.tick(), Ok(()));
    assert_eq!(cpu.pipeline, Pipeline(Some(4), Some(0)));
    assert_eq!(cpu.registers.read(Register(PC)), 8);
    assert_eq!(cpu.registers.read(Register(1)), 0);
    // The instruction at address 0 reads the program counter as 8.
    assert_eq!(cpu.tick(), Ok(()));
    assert_eq!(cpu.registers.read(Register(1)), 8);
    assert_eq!(cpu.pipeline, Pipeline(Some(8), Some(4)));
    assert_eq!(cpu.registers.read(Register(PC)), 12);
    // The instruction at address 4 reads it as 12.
    assert_eq!(cpu.tick(), Ok(()));
    assert_eq!(cpu.registers.read(Register(2)), 12);
}

#[test]
fn fetch_follows_the_thumb_bit() {
    let mut cpu = machine(&[0xE3A0_0001]);
    assert_eq!(cpu.fetch(0), Ok(EncodedInstruction::Arm(0xE3A0_0001)));
    assert_eq!(cpu.fetch(0x0800_0000), Ok(EncodedInstruction::Arm(0x2102_2001)));
    assert_eq!(cpu.fetch(0x0800_0002), Err(Fault::Unmapped { address: 0x0800_0002, width: 4 }));
    cpu.cpsr.set_t(true);
    assert_eq!(cpu.fetch(0), Ok(EncodedInstruction::Thumb(0x0001)));
    assert_eq!(cpu.fetch(2), Ok(EncodedInstruction::Thumb(0xE3A0)));
    assert_eq!(cpu.fetch(0x0800_0002), Ok(EncodedInstruction::Thumb(0x2102)));
    assert_eq!(cpu.fetch(0x0800_0004), Err(Fault::Unmapped { address: 0x0800_0004, width: 2 }));
}

#[test]
fn a_taken_branch_costs_two_bubbles() {
    // At 0: B 0x20. At 0x20: MOV R0, #1. In between: MOV R1, #1.
    let mut program = vec![0xE3A0_1001; 9];
    program[0] = 0xEA00_0006;
    program[8] = 0xE3A0_0001;
    let mut cpu = machine(&program);
    assert_eq!(cpu.tick(), Ok(()));
    assert_eq!(cpu.tick(), Ok(()));
    assert_eq!(cpu.tick(), Ok(()));
    assert_eq!(cpu.registers.read(Register(PC)), 0x20);
    assert_eq!(cpu.pipeline, Pipeline(None, None));
    // Two ticks execute nothing.
    assert_eq!(cpu.tick(), Ok(()));
    assert_eq!(cpu.pipeline, Pipeline(Some(0x20), None));
    assert_eq!(cpu.tick(), Ok(()));
    assert_eq!(cpu.pipeline, Pipeline(Some(0x24), Some(0x20)));
    assert_eq!(cpu.registers.read(Register(0)), 0);
    assert_eq!(cpu.registers.read(Register(1)), 0);
    // The third executes the instruction at the target.
    assert_eq!(cpu.tick(), Ok(()));
    assert_eq!(cpu.registers.read(Register(0)), 1);
    assert_eq!(cpu.registers.read(Register(1)), 0);
    assert_eq!(cpu.registers.read(Register(PC)), 0x2C);
}

#[test]
fn branch_with_link_returns_to_the_next_instruction() {
    // At 0: BL 0x10. At 0x10: BX LR. At 4: MOV R0, #1.
    let mut cpu = machine(&[0xEB00_0002, 0xE3A0_0001, NOP, NOP, 0xE12F_FF1E]);
    for _ in 0..3 {
        assert_eq!(cpu.tick(), Ok(()));
    }
    assert_eq!(cpu.registers.read(Register(LR)), 4);
    assert_eq!(cpu.registers.read(Register(PC)), 0x10);
    for _ in 0..3 {
        assert_eq!(cpu.tick(), Ok(()));
    }
    assert_eq!(cpu.registers.read(Register(PC)), 4);
    assert!(!cpu.cpsr.t());
    for _ in 0..3 {
        assert_eq!(cpu.tick(), Ok(()));
    }
    assert_eq!(cpu.registers.read(Register(0)), 1);
}

#[test]
fn an_interrupt_request_is_taken_at_the_end_of_a_tick() {
    let mut cpu = machine(&[NOP, NOP, NOP, NOP]);
    for _ in 0..3 {
        assert_eq!(cpu.tick(), Ok(()));
    }
    assert_eq!(cpu.pipeline, Pipeline(Some(8), Some(4)));
    cpu.cpsr.set_c(true);
    raise_interrupt(&mut cpu);
    assert_eq!(cpu.tick(), Ok(()));
    // The instruction at 4 executed; the one at 8 is where to come back to.
    assert_eq!(cpu.cpsr.to_bits(), 0x2000_0092);
    assert_eq!(cpu.spsr.to_bits(), 0x2000_001F);
    assert_eq!(cpu.registers.mode(), Mode::IRQ);
    assert_eq!(cpu.registers.read(Register(LR)), 12);
    assert_eq!(cpu.registers.read(Register(PC)), 0x18);
    assert_eq!(cpu.pipeline, Pipeline(None, None));
    assert!(!cpu.memory.interrupts.is_asserted());
    assert_eq!(cpu.registers.read_in(Mode::System, Register(LR)), 0);
}

#[test]
fn an_interrupt_request_right_after_a_branch_returns_to_the_target() {
    let mut cpu = machine(&[0xEA00_0006]);
    assert_eq!(cpu.tick(), Ok(()));
    assert_eq!(cpu.tick(), Ok(()));
    raise_interrupt(&mut cpu);
    assert_eq!(cpu.tick(), Ok(()));
    assert_eq!(cpu.registers.mode(), Mode::IRQ);
    assert_eq!(cpu.registers.read(Register(LR)), 0x24);
    assert_eq!(cpu.registers.read(Register(PC)), 0x18);
}

#[test]
fn an_interrupt_request_waits_while_the_i_bit_is_set() {
    let mut cpu = machine(&[NOP, NOP, NOP, NOP]);
    cpu.cpsr.set_i(true);
    raise_interrupt(&mut cpu);
    for _ in 0..3 {
        assert_eq!(cpu.tick(), Ok(()));
    }
    assert_eq!(cpu.registers.mode(), Mode::System);
    assert_eq!(cpu.registers.read(Register(PC)), 12);
    assert!(cpu.memory.interrupts.is_asserted());
    cpu.cpsr.set_i(false);
    assert_eq!(cpu.tick(), Ok(()));
    assert_eq!(cpu.registers.mode(), Mode::IRQ);
    assert!(cpu.cpsr.i());
    assert!(!cpu.memory.interrupts.is_asserted());
}

#[test]
fn a_word_that_is_no_instruction_halts_the_tick() {
    let mut cpu = machine(&[NOP, 0xE300_0000]);
    for _ in 0..3 {
        assert_eq!(cpu.tick(), Ok(()));
    }
    assert_eq!(
        cpu.tick(),
        Err(Halt { address: 4, cause: Cause::Decode(DecodeError::Unrecognised(0xE300_0000)) })
    );
    let mut cpu = machine(&[0xE031_00B0]);
    assert_eq!(cpu.tick(), Ok(()));
    assert_eq!(cpu.tick(), Ok(()));
    assert_eq!(
        cpu.tick(),
        Err(Halt { address: 0, cause: Cause::Decode(DecodeError::Unpredictable(0xE031_00B0)) })
    );
}

#[test]
fn a_fetch_from_nowhere_halts_the_tick() {
    // B 0x0100_0000
    let mut cpu = machine(&[0xEA3F_FFFE]);
    for _ in 0..3 {
        assert_eq!(cpu.tick(), Ok(()));
    }
    assert_eq!(cpu.registers.read(Register(PC)), 0x0100_0000);
    assert_eq!(cpu.tick(), Ok(()));
    assert_eq!(cpu.tick(), Ok(()));
    assert_eq!(
        cpu.tick(),
        Err(Halt {
            address: 0x0100_0000,
            cause: Cause::Fetch(Fault::Unmapped { address: 0x0100_0000, width: 4 }),
        })
    );
}

#[test]
fn an_instruction_that_faults_halts_the_tick() {
    // STR R0, [R1]
    let mut cpu = machine(&[0xE581_0000]);
    assert_eq!(cpu.tick(), Ok(()));
    assert_eq!(cpu.tick(), Ok(()));
    assert_eq!(
        cpu.tick(),
        Err(Halt {
            address: 0,
            cause: Cause::Execute(ExecuteError::Fault(Fault::Unmapped { address: 0, width: 4 })),
        })
    );
}

#[test]
fn thumb_state_has_no_decoder() {
    // BX R1 with R1 naming a Thumb routine in the cartridge.
    let mut cpu = machine(&[0xE12F_FF11]);
    cpu.registers.write(Register(1), 0x0800_0001);
    for _ in 0..3 {
        assert_eq!(cpu.tick(), Ok(()));
    }
    assert!(cpu.cpsr.t());
    assert_eq!(cpu.registers.read(Register(PC)), 0x0800_0000);
    assert_eq!(cpu.tick(), Ok(()));
    assert_eq!(cpu.registers.read(Register(PC)), 0x0800_0002);
    assert_eq!(cpu.tick(), Ok(()));
    assert_eq!(cpu.registers.read(Register(PC)), 0x0800_0004);
    assert_eq!(
        cpu.tick(),
        Err(Halt { address: 0x0800_0000, cause: Cause::Decode(DecodeError::Thumb(0x2001)) })
    );
}
