use risc_sim::cpu::cpu_core::KERNEL_ADDR;
use risc_sim::system::plic::PLIC_PENDING;
use risc_sim::system::virtio::{process_queue, BlockDevice, VIRTIO_0_ADDR, VIRTIO_NOTIFY_ADDR};
use risc_sim::cpu::cpu_core::{Cpu, CpuMode, PrivilegeMode};
use risc_sim::cpu::memory::memory_core::Memory;
use risc_sim::cpu::memory::raw_memory::ContinuousMemory;
use risc_sim::cpu::memory::user_memory::UserMemory;
use risc_sim::error::EmuError;
use risc_sim::isa::csr::csr_types::CSRAddress;
use risc_sim::isa::rv32i::integer_reg_reg::{Add, Sub, AND, OR, SLL, SLT, SLTU, SRA, SRL, XOR};
use risc_sim::isa::traps::execute_trap;
use risc_sim::system::kernel::HostCall;
use risc_sim::types::{RInstructionData, Word, U3, U5, U7};

fn rv32(program: Vec<u32>) -> Cpu<UserMemory> {
    let mut cpu = Cpu::new_userspace(CpuMode::RV32);
    cpu.load_program_from_opcodes(program, 0x1000, CpuMode::RV32).unwrap();
    cpu
}

fn rv64(program: Vec<u32>) -> Cpu<UserMemory> {
    let mut cpu = Cpu::new_userspace(CpuMode::RV64);
    cpu.load_program_from_opcodes(program, 0x1000, CpuMode::RV64).unwrap();
    cpu
}

#[test]
fn rv32_program_computes_and_exits() {
    let mut cpu = rv32(vec![
        0x00500093, // addi x1, x0, 5
        0x00700113, // addi x2, x0, 7
        0x002081b3, // add x3, x1, x2
        0x40110233, // sub x4, x2, x1
        0x00100013, // addi x0, x0, 1
        0x05d00893, // addi a7, x0, 93
        0x00000073, // ecall (exit)
    ]);
    assert_eq!(cpu.read_pc_u64(), 0x1000);
    cpu.run_cycles(7).unwrap();
    assert_eq!(cpu.read_x_u32(3), 12);
    assert_eq!(cpu.read_x_u32(4), 2);
    assert_eq!(cpu.read_x_u32(0), 0);
    assert!(cpu.halted());
    assert_eq!(cpu.run_cycle(), Err(EmuError::Halted));
}

#[test]
fn running_past_the_program_is_reported() {
    let mut cpu = rv32(vec![0x00500093, 0x00700113]);
    assert_eq!(cpu.run_cycles(5), Err(EmuError::OutOfBounds(0x1008)));
    assert_eq!(cpu.read_x_u32(1), 5);
    assert_eq!(cpu.read_x_u32(2), 7);
}

#[test]
fn rv64_muldiv_edge_cases() {
    let mut cpu = rv64(vec![
        0x022081b3, // mul x3, x1, x2
        0x0200c233, // div x4, x1, x0
        0x020162b3, // rem x5, x2, x0
    ]);
    cpu.write_x_u64(1, u64::MAX);
    cpu.write_x_u64(2, 7);
    cpu.run_cycles(3).unwrap();
    assert_eq!(cpu.read_x_i64(3), -7);
    assert_eq!(cpu.read_x_i64(4), -1);
    assert_eq!(cpu.read_x_u64(5), 7);
}

#[test]
fn rv64_write_syscall_fills_stdout() {
    let mut cpu = rv64(vec![
        0x00000073, // ecall (write)
        0x00000073, // ecall (exit)
    ]);
    cpu.memory.write_mem_u8(0x2000, b'h').unwrap();
    cpu.memory.write_mem_u8(0x2001, b'i').unwrap();
    cpu.write_x_u64(10, 1);
    cpu.write_x_u64(11, 0x2000);
    cpu.write_x_u64(12, 2);
    cpu.write_x_u64(17, 64);
    cpu.run_cycles(1).unwrap();
    assert_eq!(cpu.read_x_u64(10), 2);
    assert_eq!(cpu.kernel.stdout_buffer, b"hi".to_vec());
    assert_eq!(cpu.kernel.read_and_clear_stdout_buffer(), b"hi".to_vec());
    assert!(cpu.kernel.stdout_buffer.is_empty());
    cpu.write_x_u64(17, 93);
    cpu.run_cycles(1).unwrap();
    assert!(cpu.halted());
    assert_eq!(cpu.read_x_u64(10), 0);
}

#[test]
fn rv64_host_calls_stop_the_hart() {
    let mut cpu = rv64(vec![0x00000073]);
    cpu.write_x_u64(17, 1024);
    cpu.write_x_u64(10, 0x3000);
    cpu.write_x_u64(11, 0);
    assert_eq!(
        cpu.run_cycles(2),
        Err(EmuError::HostCall(HostCall::Open { path_addr: 0x3000, flags: 0 }))
    );
}

#[test]
fn rv64_clock_calls_store_the_time() {
    let mut cpu = rv64(vec![0x00000073, 0x00000073]);
    cpu.write_x_u64(17, 169);
    cpu.write_x_u64(10, 0x3000);
    cpu.run_cycles(1).unwrap();
    assert_eq!(cpu.read_x_u64(10), 0);
    assert!(cpu.memory.read_mem_u64(0x3000).unwrap() > 1_500_000_000);
    assert!(cpu.memory.read_mem_u64(0x3008).unwrap() < 1_000_000);
    cpu.write_x_u64(17, 403);
    cpu.write_x_u64(10, 0);
    cpu.write_x_u64(11, 0x3100);
    cpu.run_cycles(1).unwrap();
    assert_eq!(cpu.read_x_u64(10), 0);
    assert!(cpu.memory.read_mem_u64(0x3100).unwrap() > 1_500_000_000);
    assert!(cpu.memory.read_mem_u64(0x3108).unwrap() < 1_000_000_000);
}

#[test]
fn rv32_clock_call_stores_two_words() {
    let mut cpu = rv32(vec![0x00000073]);
    cpu.write_x_u32(17, 403);
    cpu.write_x_u32(10, 0);
    cpu.write_x_u32(11, 0x3000);
    cpu.run_cycles(1).unwrap();
    assert_eq!(cpu.read_x_u32(10), 0);
    assert!(cpu.memory.read_mem_u32(0x3000).unwrap() > 0);
    assert!(cpu.memory.read_mem_u32(0x3004).unwrap() < 1_000_000_000);
}

#[test]
fn rv32_write_keeps_the_bytes_before_a_refused_read() {
    let mut cpu = rv32(vec![0x00000073]);
    cpu.memory.write_mem_u8(0xff_fffe, b'o').unwrap();
    cpu.memory.write_mem_u8(0xff_ffff, b'k').unwrap();
    cpu.write_x_u32(17, 64);
    cpu.write_x_u32(10, 1);
    cpu.write_x_u32(11, 0xff_fffe);
    cpu.write_x_u32(12, 4);
    assert!(cpu.run_cycles(1).is_err());
    assert_eq!(cpu.kernel.stdout_buffer, b"ok".to_vec());
}

#[test]
fn unknown_words_are_refused() {
    let mut cpu = Cpu::new_userspace(CpuMode::RV32);
    assert_eq!(cpu.execute_word(Word(0xffff_ffff)), Err(EmuError::InstructionNotFound(0xffff_ffff)));
    assert_eq!(
        cpu.load_program_from_opcodes(vec![0xffff_ffff], 0x1000, CpuMode::RV32),
        Err(EmuError::InstructionNotFound(0xffff_ffff))
    );
}

#[test]
fn register_writes_to_zero_are_dropped() {
    let mut cpu = Cpu::new_userspace(CpuMode::RV64);
    cpu.write_x_u64(0, 5);
    cpu.write_x_u64(7, 5);
    assert_eq!(cpu.read_x_u64(0), 0);
    assert_eq!(cpu.read_x_u64(7), 5);
    cpu.write_x_i64(8, -2);
    assert_eq!(cpu.read_x_u64(8), u64::MAX - 1);
}

fn r(rd: u8, rs1: u8, rs2: u8) -> RInstructionData {
    RInstructionData { rd: U5(rd), func3: U3(0), rs1: U5(rs1), rs2: U5(rs2), func7: U7(0) }
}

#[test]
fn register_register_operations() {
    let mut cpu = Cpu::new_userspace(CpuMode::RV32);
    cpu.write_x_u32(1, 0xffff_fff0);
    cpu.write_x_u32(2, 0x24);
    Add::new(r(3, 1, 2)).execute(&mut cpu).unwrap();
    assert_eq!(cpu.read_x_u32(3), 0x14);
    Sub::new(r(3, 2, 1)).execute(&mut cpu).unwrap();
    assert_eq!(cpu.read_x_u32(3), 0x34);
    SLT::new(r(3, 1, 2)).execute(&mut cpu).unwrap();
    assert_eq!(cpu.read_x_u32(3), 1);
    SLTU::new(r(3, 1, 2)).execute(&mut cpu).unwrap();
    assert_eq!(cpu.read_x_u32(3), 0);
    AND::new(r(3, 1, 2)).execute(&mut cpu).unwrap();
    assert_eq!(cpu.read_x_u32(3), 0x20);
    OR::new(r(3, 1, 2)).execute(&mut cpu).unwrap();
    assert_eq!(cpu.read_x_u32(3), 0xffff_fff4);
    XOR::new(r(3, 1, 2)).execute(&mut cpu).unwrap();
    assert_eq!(cpu.read_x_u32(3), 0xffff_ffd4);
    SLL::new(r(3, 2, 2)).execute(&mut cpu).unwrap();
    assert_eq!(cpu.read_x_u32(3), 0x240);
    SRL::new(r(3, 1, 2)).execute(&mut cpu).unwrap();
    assert_eq!(cpu.read_x_u32(3), 0x0fff_ffff);
    SRA::new(r(3, 1, 2)).execute(&mut cpu).unwrap();
    assert_eq!(cpu.read_x_u32(3), 0xffff_ffff);
    let op = Add::new(r(40, 1, 2));
    assert_eq!(*op.instruction(), r(40, 1, 2));
    assert_eq!(op.execute(&mut cpu), Err(EmuError::InvalidRegister(40)));
    assert_eq!(Sub::new(r(3, 33, 2)).execute(&mut cpu), Err(EmuError::InvalidRegister(33)));
}

#[test]
fn trap_to_machine_mode_and_return() {
    let mut cpu = Cpu::new_userspace(CpuMode::RV64);
    cpu.csr_table.write64(CSRAddress::Mtvec.as_u12(), 0x8000);
    cpu.privilege_mode = PrivilegeMode::User;
    cpu.current_instruction_pc_64 = 0x1234;
    execute_trap(&mut cpu, 8, false).unwrap();
    assert_eq!(cpu.privilege_mode, PrivilegeMode::Machine);
    assert_eq!(cpu.read_pc_u64(), 0x8000);
    assert_eq!(cpu.csr_table.read64(CSRAddress::Mcause.as_u12()), 8);
    assert_eq!(cpu.csr_table.read64(CSRAddress::Mepc.as_u12()), 0x1234);
    cpu.execute_word(Word(0x3020_0073)).unwrap(); // mret
    assert_eq!(cpu.privilege_mode, PrivilegeMode::User);
    assert_eq!(cpu.read_pc_u64(), 0x1234);
}

#[test]
fn vectored_traps_and_refused_returns() {
    let mut cpu = Cpu::new_userspace(CpuMode::RV64);
    cpu.csr_table.write64(CSRAddress::Mtvec.as_u12(), 0x8001);
    execute_trap(&mut cpu, 3, true).unwrap();
    assert_eq!(cpu.read_pc_u64(), 0x8000 + 12);
    assert_eq!(cpu.csr_table.read64(CSRAddress::Mcause.as_u12()), (1u64 << 63) | 3);
    // the trap came from machine mode, which MRET does not return to
    assert_eq!(cpu.execute_word(Word(0x3020_0073)), Err(EmuError::InvalidMpp(3)));

    let mut cpu32 = Cpu::new_userspace(CpuMode::RV32);
    assert_eq!(execute_trap(&mut cpu32, 3, false), Err(EmuError::UnsupportedArch));
}

#[test]
fn rv64_float_register_moves_loads_and_stores() {
    let mut cpu = rv64(vec![
        0xf20080d3, // fmv.d.x f1, x1
        0x22109153, // fsgnjn.d f2, f1, f1
        0xe2010153, // fmv.x.d x2, f2
        0x0021b027, // fsd f2, 0(x3)
        0x0041a207, // flw f4, 4(x3)
        0xf00202d3, // fmv.x.w x5, f4
        0x021080d3, // fadd.d f1, f1, f1
    ]);
    cpu.write_x_u64(1, 0x4000_0000_0000_0000);
    cpu.write_x_u64(3, 0x3000);
    cpu.run_cycles(6).unwrap();
    assert_eq!(cpu.read_f_bits(1), 0x4000_0000_0000_0000);
    assert_eq!(cpu.read_f_bits(2), 0xc000_0000_0000_0000);
    assert_eq!(cpu.read_x_u64(2), 0xc000_0000_0000_0000);
    assert_eq!(cpu.memory.read_mem_u64(0x3000).unwrap(), 0xc000_0000_0000_0000);
    assert_eq!(cpu.read_f_bits(4), 0xffff_ffff_c000_0000);
    assert_eq!(cpu.read_x_u32(5), 0xc000_0000);
    // arithmetic goes to the host's floating-point unit
    assert_eq!(cpu.run_cycle(), Err(EmuError::FloatInstruction(0x021080d3)));
    assert_eq!(cpu.read_pc_u64(), 0x1000 + 7 * 4);
}

#[test]
fn runs_compose() {
    let program = vec![
        0x00500093, // addi x1, x0, 5
        0x00700113, // addi x2, x0, 7
        0x002081b3, // add x3, x1, x2
        0x40110233, // sub x4, x2, x1
        0x002081b3, // add x3, x1, x2
    ];
    let mut a = rv32(program.clone());
    let mut b = rv32(program);
    a.run_cycles(5).unwrap();
    b.run_cycles(2).unwrap();
    b.run_cycles(3).unwrap();
    assert_eq!(a.read_pc_u64(), b.read_pc_u64());
    for i in 0..32u8 {
        assert_eq!(a.read_x_u32(i), b.read_x_u32(i));
    }
}

fn virtio_set(cpu: &mut Cpu<ContinuousMemory>, off: u64, width: u64, v: u64) {
    let w = &mut cpu.peripherals.as_mut().unwrap().virtio;
    w.write_le(risc_sim::system::virtio::VIRTIO_0_ADDR + off, width, v).unwrap();
}

fn virtio_get(cpu: &mut Cpu<ContinuousMemory>, off: u64, width: u64) -> u64 {
    let w = &mut cpu.peripherals.as_mut().unwrap().virtio;
    w.read_le(risc_sim::system::virtio::VIRTIO_0_ADDR + off, width).unwrap()
}

/// A hart whose virtqueue holds one read request of sector 1 into guest memory at
/// `KERNEL_ADDR + 0x1000`, with its status byte at `KERNEL_ADDR + 0x2000`.
fn cpu_with_read_request() -> Cpu<ContinuousMemory> {
    let mut storage = vec![0u8; 4 * 512];
    for (i, b) in storage[512..1024].iter_mut().enumerate() {
        *b = (i % 251) as u8 + 1;
    }
    let mut cpu = Cpu::new_bare(Some(BlockDevice::from_storage(storage, 4)));
    let (used, desc, avail, header) = (0x08u64, 0xa8u64, 0xd8u64, 0xeeu64);
    virtio_set(&mut cpu, 0x80, 4, VIRTIO_0_ADDR + desc);
    virtio_set(&mut cpu, 0x84, 4, 0);
    virtio_set(&mut cpu, 0x90, 4, VIRTIO_0_ADDR + avail);
    virtio_set(&mut cpu, 0x94, 4, 0);
    virtio_set(&mut cpu, 0xa0, 4, VIRTIO_0_ADDR + used);
    virtio_set(&mut cpu, 0xa4, 4, 0);
    // descriptors: header, data buffer, status byte
    virtio_set(&mut cpu, desc, 8, VIRTIO_0_ADDR + header);
    virtio_set(&mut cpu, desc + 8, 4, 16);
    virtio_set(&mut cpu, desc + 12, 2, 1);
    virtio_set(&mut cpu, desc + 14, 2, 1);
    virtio_set(&mut cpu, desc + 16, 8, KERNEL_ADDR + 0x1000);
    virtio_set(&mut cpu, desc + 24, 4, 512);
    virtio_set(&mut cpu, desc + 28, 2, 3);
    virtio_set(&mut cpu, desc + 30, 2, 2);
    virtio_set(&mut cpu, desc + 32, 8, KERNEL_ADDR + 0x2000);
    virtio_set(&mut cpu, desc + 40, 4, 1);
    virtio_set(&mut cpu, desc + 44, 2, 2);
    virtio_set(&mut cpu, desc + 46, 2, 0);
    // available ring: one entry, descriptor 0
    virtio_set(&mut cpu, avail + 2, 2, 1);
    virtio_set(&mut cpu, avail + 4, 2, 0);
    // request header: read, sector 1
    virtio_set(&mut cpu, header, 4, 0);
    virtio_set(&mut cpu, header + 8, 8, 1);
    // used ring index 3
    virtio_set(&mut cpu, used + 2, 2, 3);
    cpu.memory.write_mem_u8(KERNEL_ADDR + 0x2000, 0xff).unwrap();
    cpu
}

fn check_read_request_served(cpu: &mut Cpu<ContinuousMemory>) {
    for k in 0..512u64 {
        assert_eq!(cpu.memory.read_mem_u8(KERNEL_ADDR + 0x1000 + k).unwrap(), (k % 251) as u8 + 1);
    }
    assert_eq!(cpu.memory.read_mem_u8(KERNEL_ADDR + 0x2000).unwrap(), 0);
    // used ring: slot 3 holds descriptor 0 with length 0, and the index moved on
    assert_eq!(virtio_get(cpu, 0x08 + 2, 2), 4);
    assert_eq!(virtio_get(cpu, 0x08 + 4 + 8 * 3, 4), 0);
    assert_eq!(virtio_get(cpu, 0x08 + 8 + 8 * 3, 4), 0);
    let plic = &mut cpu.peripherals.as_mut().unwrap().plic;
    assert_eq!(plic.read_le(PLIC_PENDING, 4).unwrap() & 2, 2);
    assert_eq!(cpu.block_device.as_ref().unwrap().storage[512], 1);
}

#[test]
fn virtio_read_request_is_served() {
    let mut cpu = cpu_with_read_request();
    assert_eq!(process_queue(&mut cpu), Ok(()));
    check_read_request_served(&mut cpu);
}

#[test]
fn virtio_notify_store_serves_the_queue() {
    let mut cpu = cpu_with_read_request();
    assert_eq!(cpu.write_mem_u32(VIRTIO_NOTIFY_ADDR, 0), Ok(()));
    check_read_request_served(&mut cpu);
    assert_eq!(virtio_get(&mut cpu, 0x50, 4), 0);
}

#[test]
fn virtio_request_without_disk_is_refused() {
    let mut cpu = cpu_with_read_request();
    cpu.block_device = None;
    assert_eq!(process_queue(&mut cpu), Err(EmuError::NoBlockDevice));
}

#[test]
fn vectored_machine_interrupt_on_a_bare_hart() {
    let mut cpu = Cpu::new_bare(None);
    cpu.csr_table.write64(CSRAddress::Mtvec.as_u12(), 0x8000_0101);
    cpu.csr_table.write64(CSRAddress::Mstatus.as_u12(), 0x8);
    cpu.current_instruction_pc_64 = 0x8000_0040;
    execute_trap(&mut cpu, 7, true).unwrap();
    assert_eq!(cpu.privilege_mode, PrivilegeMode::Machine);
    assert_eq!(cpu.csr_table.read64(CSRAddress::Mstatus.as_u12()), 0x1880);
    assert_eq!(cpu.csr_table.read64(CSRAddress::Mcause.as_u12()), 0x8000_0000_0000_0007);
    assert_eq!(cpu.csr_table.read64(CSRAddress::Mepc.as_u12()), 0x8000_0040);
    assert_eq!(cpu.read_pc_u64(), 0x8000_011c);
    assert_eq!(cpu.csr_table.read64(CSRAddress::Scause.as_u12()), 0);
    assert_eq!(cpu.csr_table.read64(CSRAddress::Sepc.as_u12()), 0);
}

#[test]
fn program_loading_reports_its_failures() {
    let mut cpu = Cpu::new_userspace(CpuMode::RV32);
    assert!(cpu.load_program_from_opcodes(vec![0xffff_ffff], 0x1000, CpuMode::RV32).is_err());
    assert!(cpu.load_program_from_opcodes(vec![0x13, 0x13], 0xff_fffc, CpuMode::RV32).is_err());
    assert_eq!(
        cpu.load_program_from_opcodes(vec![0x13], u64::MAX - 4, CpuMode::RV32),
        Err(EmuError::OutOfBounds(u64::MAX - 4))
    );
    assert_eq!(cpu.load_program_from_opcodes(vec![0x13], 0x1000, CpuMode::RV32), Ok(()));
}

#[test]
fn kernel_image_loading_reports_its_failures() {
    let mut cpu = Cpu::new_bare(None);
    let image: Vec<u8> = vec![0x73, 0, 0, 0, 0x73, 0, 0, 0];
    assert_eq!(cpu.load_kernel_image(&image, KERNEL_ADDR), Ok(()));
    assert_eq!(cpu.read_pc_u64(), KERNEL_ADDR);
    assert!(cpu.load_kernel_image(&image, 0x1000).is_err());
    assert!(cpu.load_kernel_image(&[0xff, 0xff, 0xff, 0xff], KERNEL_ADDR).is_err());
}
