use vstd::prelude::*;

verus! {

/// Capacity reserved for the captured standard output.
pub const STDOUT_BUFFER_SIZE: usize = 32768;

/// The output a program wrote to its standard streams, kept for the host to show and
/// inspect; files are served by the host.
#[derive(Clone, Debug)]
pub struct PassthroughKernel {
    pub stdout_buffer: Vec<u8>,
    pub stdin_buffer: Vec<u8>,
    pub stderr_buffer: Vec<u8>,
}

impl PassthroughKernel {
    /// Empty streams.
    pub fn new() -> (r: Self)
        ensures
            r.stdout_buffer@ == Seq::<u8>::empty(),
            r.stdin_buffer@ == Seq::<u8>::empty(),
            r.stderr_buffer@ == Seq::<u8>::empty(),
    {
        PassthroughKernel {
            stdout_buffer: Vec::with_capacity(STDOUT_BUFFER_SIZE),
            stdin_buffer: Vec::new(),
            stderr_buffer: Vec::new(),
        }
    }

    /// Appends one byte to the standard output.
    pub fn push_stdout(&mut self, b: u8)
        ensures
            final(self).stdout_buffer@ == old(self).stdout_buffer@.push(b),
            final(self).stderr_buffer@ == old(self).stderr_buffer@,
            final(self).stdin_buffer@ == old(self).stdin_buffer@,
    {
        self.stdout_buffer.push(b);
    }

    /// Appends bytes to the standard output.
    pub fn write_stdout(&mut self, buf: &[u8])
        ensures
            final(self).stdout_buffer@ == old(self).stdout_buffer@ + buf@,
            final(self).stderr_buffer@ == old(self).stderr_buffer@,
            final(self).stdin_buffer@ == old(self).stdin_buffer@,
    {
        let mut i: usize = 0;
        while i < buf.len()
            invariant
                i <= buf@.len(),
                self.stdout_buffer@ == old(self).stdout_buffer@ + buf@.subrange(0, i as int),
                self.stderr_buffer@ == old(self).stderr_buffer@,
                self.stdin_buffer@ == old(self).stdin_buffer@,
            decreases buf@.len() - i,
        {
            self.stdout_buffer.push(buf[i]);
            assert(buf@.subrange(0, i + 1) =~= buf@.subrange(0, i as int).push(buf@[i as int]));
            i = i + 1;
        }
        assert(buf@.subrange(0, buf@.len() as int) =~= buf@);
    }

    /// Appends bytes to the standard error.
    pub fn write_stderr(&mut self, buf: &[u8])
        ensures
            final(self).stderr_buffer@ == old(self).stderr_buffer@ + buf@,
            final(self).stdout_buffer@ == old(self).stdout_buffer@,
            final(self).stdin_buffer@ == old(self).stdin_buffer@,
    {
        let mut i: usize = 0;
        while i < buf.len()
            invariant
                i <= buf@.len(),
                self.stderr_buffer@ == old(self).stderr_buffer@ + buf@.subrange(0, i as int),
                self.stdout_buffer@ == old(self).stdout_buffer@,
                self.stdin_buffer@ == old(self).stdin_buffer@,
            decreases buf@.len() - i,
        {
            self.stderr_buffer.push(buf[i]);
            assert(buf@.subrange(0, i + 1) =~= buf@.subrange(0, i as int).push(buf@[i as int]));
            i = i + 1;
        }
        assert(buf@.subrange(0, buf@.len() as int) =~= buf@);
    }

    /// Hands out the captured standard output and empties it.
    pub fn read_and_clear_stdout_buffer(&mut self) -> (r: Vec<u8>)
        ensures
            r@ == old(self).stdout_buffer@,
            final(self).stdout_buffer@ == Seq::<u8>::empty(),
            final(self).stderr_buffer@ == old(self).stderr_buffer@,
            final(self).stdin_buffer@ == old(self).stdin_buffer@,
    {
        let out = self.stdout_buffer.clone();
        self.stdout_buffer.clear();
        out
    }
}

} // verus!
