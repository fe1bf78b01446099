use vstd::prelude::*;

verus! {

/// Origin of a file seek.
#[derive(Clone, Copy, PartialEq, Eq, Structural, Debug)]
pub enum SeekType {
    Start,
    Current,
    End,
}

impl SeekType {
    /// The origin named by a `whence` number; only 0, 1 and 2 exist.
    pub fn from(value: u32) -> (r: SeekType)
        requires
            value < 3,
        ensures
            value == 0 ==> r == SeekType::Start,
            value == 1 ==> r == SeekType::Current,
            value == 2 ==> r == SeekType::End,
    {
        if value == 0 {
            SeekType::Start
        } else if value == 1 {
            SeekType::Current
        } else {
            SeekType::End
        }
    }
}

/// The origin named by a `whence` number.
pub open spec fn seek_type_of(value: u32) -> SeekType {
    if value == 0 {
        SeekType::Start
    } else if value == 1 {
        SeekType::Current
    } else {
        SeekType::End
    }
}

/// A system call of a user-space program that needs the host operating system. The hart
/// stops with it; the host performs it and hands the outcome back to
/// `Cpu::complete_host_call`.
#[derive(Clone, Copy, PartialEq, Eq, Structural, Debug)]
pub enum HostCall {
    /// Close a host file.
    Close { fd: u32 },
    /// Move the position of a host file.
    Seek { fd: u32, offset: u64, whence: SeekType },
    /// Read up to `len` bytes of a host file into guest memory at `addr`.
    Read { fd: u32, addr: u64, len: u64 },
    /// Write the `len` bytes at `addr` of guest memory to a host file.
    Write { fd: u32, addr: u64, len: u64 },
    /// Store the status of a host file at `addr`.
    Fstat { fd: u32, addr: u64 },
    /// Store the status of the standard output of a 32-bit program at `addr`.
    FstatStdout { addr: u64, size: u32 },
    /// Open the host file named by the string at `path_addr`.
    Open { path_addr: u64, flags: u32 },
    /// A system call the emulator does not serve; the host reports it.
    Unsupported { number: u64 },
}

/// The outcome of a host call.
#[derive(Clone, Debug)]
pub enum HostReply {
    /// The host operation failed.
    Failed,
    /// The host operation gave a number (new position, byte count, file descriptor).
    Value(u64),
    /// The host operation gave bytes to store in guest memory, and a count.
    Bytes(Vec<u8>, u64),
}

} // verus!
