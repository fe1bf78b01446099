# risc_sim

A RISC-V emulator (RV32IM with Zicsr/Zifencei, and the RV64 extensions M, A, Zicsr, the
privileged instructions and the floating-point load, store, move and sign-injection
instructions) whose core is verified with Verus.

- `src/` is the verified library: instruction decoding and encoding, the instruction
  semantics of each extension, traps and interrupts, control and status registers, the Sv39
  page-table walk, several memory back ends (contiguous, paged over vectors, sorted vectors,
  B-trees, tables and hash maps), the devices of the bare-metal machine (UART, PLIC, virtio
  block device), the ELF decoder and loader, and the user-space system-call layer.
- `tests/` exercises the library on concrete programs and values.
- `app/` is the command-line program: argument parsing, terminal and file I/O, the host side of
  system calls, floating-point arithmetic and the optional display.

System calls on host files and floating-point arithmetic stop the hart with
`EmuError::HostCall` or `EmuError::FloatInstruction` (clock calls read the host clock in the
library itself); the program performs them and
resumes the hart (`Cpu::complete_host_call` for system calls).
