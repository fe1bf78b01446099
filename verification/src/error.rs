use vstd::prelude::*;

use crate::system::kernel::HostCall;

verus! {

/// Errors reported by the emulator library.
#[derive(Clone, Copy, PartialEq, Eq, Structural, Debug)]
pub enum EmuError {
    /// A register number outside `0..32` was given.
    InvalidRegister(u32),
    /// No instruction of the active table matches the word.
    InstructionNotFound(u32),
    /// No instruction carries the requested mnemonic.
    FunctionNotFound,
    /// A memory access fell outside the backing storage.
    OutOfBounds(u64),
    /// The CPU was halted by an exit request.
    Halted,
    /// An Sv39 page-table entry on the walk was not valid (level, virtual address).
    InvalidPte(u8, u64),
    /// A superpage leaf was met during an Sv39 walk (level, virtual address).
    SuperpageLeaf(u8, u64),
    /// The word cannot be encoded for the requested instruction format.
    UnsupportedEncoding,
    /// A file descriptor that the system-call layer does not serve.
    UnsupportedFileDescriptor(u32),
    /// The system call number is not served by the emulator.
    UnsupportedSyscall(u64),
    /// A breakpoint instruction was executed.
    Breakpoint,
    /// A device register access that would re-enter its own handler without end.
    DeviceLoop(u64),
    /// A virtqueue request that does not have the descriptor chain the block device expects.
    VirtioProtocol,
    /// A block request arrived while no block device is attached.
    NoBlockDevice,
    /// A sector number past the end of the block device.
    SectorOutOfRange(u64),
    /// The operation is only available on a 64-bit hart.
    UnsupportedArch,
    /// A trap delegated to supervisor level was raised in machine mode.
    InvalidPrivilegeTransition,
    /// `mret` found a previous privilege it cannot return to.
    InvalidMpp(u64),
    /// `sret` would return to the instruction that executed it.
    SretToItself,
    /// A signed remainder of the most negative value by -1 overflows.
    ArithmeticOverflow,
    /// A system call needs the host; the hart waits for its outcome.
    HostCall(HostCall),
    /// A host operation the program depends on failed.
    HostFailure,
    /// A seek origin other than start, current position and end.
    InvalidSeek(u32),
    /// A floating-point arithmetic, comparison or conversion instruction, with its word; the
    /// host's floating-point unit performs it and the hart goes on after it.
    FloatInstruction(u32),
}

} // verus!
