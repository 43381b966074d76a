//! Console buffers of the host adapter.
//!
//! What the host's allocator grants is an argument of the calls that allocate.
use vstd::prelude::*;

verus! {

/// Most bytes of guest input that wait.
pub const GUEST_CONSOLE_INPUT_BUFFER_CAPACITY: usize = 4096;

/// Most bytes of guest output that wait.
pub const GUEST_CONSOLE_OUTPUT_BUFFER_CAPACITY: usize = 65536;

/// Moves bytes from the front of a buffer to the start of a destination, as many
/// as there are and fit.
fn take_front(buffer: &mut Vec<u8>, bytes: &mut [u8]) -> (read: usize)
    ensures
        read == front_len(old(buffer)@, old(bytes)@),
        final(bytes)@ == filled(old(bytes)@, old(buffer)@, read as int),
        final(buffer)@ == old(buffer)@.skip(read as int),
{
    let target: usize = if bytes.len() < buffer.len() { bytes.len() } else { buffer.len() };
    let ghost b0 = buffer@;
    let ghost d0 = bytes@;
    let mut i: usize = 0;
    while i < target
        invariant
            i <= target,
            target == front_len(b0, d0),
            buffer@ == b0,
            bytes@.len() == d0.len(),
            bytes@ == filled(d0, b0, i as int),
        decreases target - i,
    {
        bytes[i] = buffer[i];
        i += 1;
        assert(bytes@ =~= filled(d0, b0, i as int));
    }
    let rest = buffer.split_off(target);
    *buffer = rest;
    assert(buffer@ =~= b0.skip(target as int));
    target
}

/// How many bytes a read moves.
pub open spec fn front_len(buffer: Seq<u8>, dest: Seq<u8>) -> int {
    if dest.len() < buffer.len() {
        dest.len() as int
    } else {
        buffer.len() as int
    }
}

/// A destination with its first `n` bytes taken from a buffer.
pub open spec fn filled(dest: Seq<u8>, buffer: Seq<u8>, n: int) -> Seq<u8> {
    Seq::new(
        dest.len(),
        |i: int|
            if i < n {
                buffer[i]
            } else {
                dest[i]
            },
    )
}

/// The console of the host: input that waits to be read.
pub struct LinuxConsoleAdapter {
    pub input: Vec<u8>,
    /// Readers may go on.
    pub pending: bool,
    /// The means to wait for input are there.
    pub waitable: bool,
    /// A reader was here.
    pub shell_ready: bool,
}

/// The contents of the console.
#[verifier::ext_equal]
pub struct ConsoleView {
    pub input: Seq<u8>,
    pub pending: bool,
    pub waitable: bool,
    pub shell_ready: bool,
}

impl View for LinuxConsoleAdapter {
    type V = ConsoleView;

    open spec fn view(&self) -> ConsoleView {
        ConsoleView {
            input: self.input@,
            pending: self.pending,
            waitable: self.waitable,
            shell_ready: self.shell_ready,
        }
    }
}

/// What a read comes to.
#[derive(Clone, Copy, Debug, PartialEq, Eq, Structural)]
pub enum ReadStep {
    /// So many bytes were read.
    Read(usize),
    /// Sleep until input is pending, then read again.
    WaitPending,
}

impl ConsoleView {
    /// The console after a read of `n` bytes: with nothing left, readers wait.
    pub open spec fn after_read(self, n: int) -> ConsoleView {
        ConsoleView {
            input: self.input.skip(n),
            pending: if n == self.input.len() && self.waitable {
                false
            } else {
                self.pending
            },
            ..self
        }
    }
}

impl LinuxConsoleAdapter {
    /// An empty console; nothing can be waited for yet.
    pub fn new() -> (c: LinuxConsoleAdapter)
        ensures
            c@ == (ConsoleView { input: seq![], pending: false, waitable: false, shell_ready: false }),
    {
        LinuxConsoleAdapter { input: Vec::new(), pending: false, waitable: false, shell_ready: false }
    }

    /// Makes input something that can be waited for; none is pending.
    pub fn install_input_state(&mut self)
        ensures
            final(self)@ == (ConsoleView { pending: false, waitable: true, ..old(self)@ }),
    {
        self.pending = false;
        self.waitable = true;
    }

    /// Whether a sleeping reader goes on.
    pub fn input_pending(&self) -> (r: bool)
        ensures
            r == self@.pending,
    {
        self.pending
    }

    /// Reads what waits, oldest first. With nothing there a reader waits, or, where
    /// input cannot be waited for, gets nothing.
    pub fn read_bytes(&mut self, bytes: &mut [u8]) -> (step: ReadStep)
        ensures
            old(bytes)@.len() == 0 ==> step == ReadStep::Read(0) && final(self)@ == old(self)@,
            old(bytes)@.len() > 0 && old(self)@.input.len() > 0 ==> {
                let n = front_len(old(self)@.input, old(bytes)@);
                &&& step == ReadStep::Read(n as usize)
                &&& final(bytes)@ == filled(old(bytes)@, old(self)@.input, n)
                &&& final(self)@ == old(self)@.after_read(n)
            },
            old(bytes)@.len() > 0 && old(self)@.input.len() == 0 ==> {
                &&& step == (if old(self)@.waitable {
                    ReadStep::WaitPending
                } else {
                    ReadStep::Read(0)
                })
                &&& final(self)@ == old(self)@
            },
            final(bytes)@.len() == old(bytes)@.len(),
            step == ReadStep::Read(0) || step == ReadStep::WaitPending ==> final(bytes)@ == old(bytes)@,
    {
        if bytes.len() == 0 {
            return ReadStep::Read(0);
        }
        if self.input.len() == 0 {
            return if self.waitable {
                ReadStep::WaitPending
            } else {
                ReadStep::Read(0)
            };
        }
        let read: usize = take_front(&mut self.input, bytes);
        if self.input.len() == 0 && self.waitable {
            self.pending = false;
        }
        ReadStep::Read(read)
    }

    /// Adds input at the end, as far as memory goes: `granted` is the number of
    /// bytes that fit, or nothing where none could be set aside. Gives how many were
    /// added, and whether readers are to be woken.
    pub fn enqueue_bytes(&mut self, bytes: &[u8], granted: Option<usize>) -> (r: (usize, bool))
        ensures
            ({
                let n = accepted(bytes@, granted);
                &&& r.0 == n
                &&& r.1 == (n != 0 && old(self)@.waitable)
                &&& final(self)@ == (ConsoleView {
                    input: old(self)@.input + bytes@.take(n),
                    pending: if r.1 {
                        true
                    } else {
                        old(self)@.pending
                    },
                    ..old(self)@
                })
            }),
    {
        let ghost before = self@;
        let limit: usize = match granted {
            None => 0,
            Some(n) => if n < bytes.len() {
                n
            } else {
                bytes.len()
            },
        };
        append_front(&mut self.input, bytes, limit);
        let notify: bool = limit != 0 && self.waitable;
        if notify {
            self.pending = true;
        }
        assert(self@ =~= (ConsoleView {
            input: before.input + bytes@.take(limit as int),
            pending: if notify {
                true
            } else {
                before.pending
            },
            ..before
        }));
        (limit, notify)
    }
}

/// How many bytes memory allows to add.
pub open spec fn accepted(bytes: Seq<u8>, granted: Option<usize>) -> int {
    match granted {
        None => 0,
        Some(n) => if n < bytes.len() {
            n as int
        } else {
            bytes.len() as int
        },
    }
}

fn append_front(buffer: &mut Vec<u8>, bytes: &[u8], n: usize)
    requires
        n <= bytes@.len(),
    ensures
        final(buffer)@ == old(buffer)@ + bytes@.take(n as int),
{
    let ghost b0 = buffer@;
    let mut i: usize = 0;
    while i < n
        invariant
            i <= n <= bytes@.len(),
            buffer@ == b0 + bytes@.take(i as int),
        decreases n - i,
    {
        buffer.push(bytes[i]);
        i += 1;
        assert(buffer@ =~= b0 + bytes@.take(i as int));
    }
    assert(buffer@ =~= b0 + bytes@.take(n as int));
}

/// The console of the guest: bounded input and output.
pub struct LinuxGuestConsoleAdapter {
    pub input: Vec<u8>,
    pub output: Vec<u8>,
}

/// The contents of the guest's console.
#[verifier::ext_equal]
pub struct GuestConsoleView {
    pub input: Seq<u8>,
    pub output: Seq<u8>,
}

impl View for LinuxGuestConsoleAdapter {
    type V = GuestConsoleView;

    open spec fn view(&self) -> GuestConsoleView {
        GuestConsoleView { input: self.input@, output: self.output@ }
    }
}

/// Output after one more byte: a full buffer loses its oldest byte first, and
/// without memory the new byte is lost.
pub open spec fn output_with(output: Seq<u8>, byte: u8, room: bool) -> Seq<u8> {
    let kept = if output.len() >= GUEST_CONSOLE_OUTPUT_BUFFER_CAPACITY {
        output.skip(output.len() - GUEST_CONSOLE_OUTPUT_BUFFER_CAPACITY + 1)
    } else {
        output
    };
    if room {
        kept.push(byte)
    } else {
        kept
    }
}

/// Output after more bytes, of which the first `pushes` find memory.
pub open spec fn output_after(output: Seq<u8>, bytes: Seq<u8>, pushes: int) -> Seq<u8>
    decreases bytes.len(),
{
    if bytes.len() == 0 {
        output
    } else {
        output_with(output_after(output, bytes.drop_last(), pushes), bytes.last(), bytes.len() <= pushes)
    }
}

impl LinuxGuestConsoleAdapter {
    /// No more waits than may.
    pub open spec fn wf(&self) -> bool {
        &&& self@.input.len() <= GUEST_CONSOLE_INPUT_BUFFER_CAPACITY
        &&& self@.output.len() <= GUEST_CONSOLE_OUTPUT_BUFFER_CAPACITY
    }

    /// An empty console.
    pub fn new() -> (c: LinuxGuestConsoleAdapter)
        ensures
            c.wf(),
            c@ == (GuestConsoleView { input: seq![], output: seq![] }),
    {
        LinuxGuestConsoleAdapter { input: Vec::new(), output: Vec::new() }
    }

    /// Adds output at the end. Where memory cannot be set aside (`reserved` false)
    /// all waiting output is dropped first; the first `pushes` bytes find memory.
    pub fn write_bytes_to_rust_buffer(&mut self, bytes: &[u8], reserved: bool, pushes: usize)
        requires
            old(self).wf(),
        ensures
            final(self).wf(),
            final(self)@.input == old(self)@.input,
            final(self)@.output == (if bytes@.len() == 0 {
                old(self)@.output
            } else {
                output_after(
                    if reserved {
                        old(self)@.output
                    } else {
                        seq![]
                    },
                    bytes@,
                    pushes as int,
                )
            }),
    {
        if bytes.len() == 0 {
            return ;
        }
        if !reserved {
            self.output.clear();
        }
        let ghost o0 = self.output@;
        assert(o0 =~= if reserved {
            old(self)@.output
        } else {
            seq![]
        });
        let mut i: usize = 0;
        assert(bytes@.take(0) =~= seq![]);
        while i < bytes.len()
            invariant
                i <= bytes@.len(),
                self.input@ == old(self)@.input,
                self.output@.len() <= GUEST_CONSOLE_OUTPUT_BUFFER_CAPACITY,
                self.output@ == output_after(o0, bytes@.take(i as int), pushes as int),
            decreases bytes@.len() - i,
        {
            let ghost prior = self.output@;
            if self.output.len() >= GUEST_CONSOLE_OUTPUT_BUFFER_CAPACITY {
                let _oldest: u8 = self.output.remove(0);
                assert(self.output@ =~= prior.skip(1));
            }
            if i < pushes {
                self.output.push(bytes[i]);
            }
            i += 1;
            proof {
                let t = bytes@.take(i as int);
                assert(t.drop_last() =~= bytes@.take(i - 1));
                assert(t.last() == bytes@[i - 1]);
                assert(self.output@ =~= output_with(prior, bytes@[i - 1], i <= pushes));
            }
        }
        assert(bytes@.take(bytes@.len() as int) =~= bytes@);
    }

    /// Reads guest input that waits, oldest first.
    pub fn read_input_bytes_from_rust_buffer(&mut self, bytes: &mut [u8]) -> (read: usize)
        requires
            old(self).wf(),
        ensures
            final(self).wf(),
            read == front_len(old(self)@.input, old(bytes)@),
            final(bytes)@ == filled(old(bytes)@, old(self)@.input, read as int),
            final(self)@ == (GuestConsoleView { input: old(self)@.input.skip(read as int), ..old(self)@ }),
    {
        take_front(&mut self.input, bytes)
    }

    /// Adds guest input at the end, as far as the buffer and memory go: `granted` is
    /// the number of bytes that memory allows, or nothing where none could be set
    /// aside. Gives how many were added.
    pub fn enqueue_input_bytes(&mut self, bytes: &[u8], granted: Option<usize>) -> (written: usize)
        requires
            old(self).wf(),
        ensures
            final(self).wf(),
            written == input_accepted(old(self)@.input, bytes@, granted),
            final(self)@ == (GuestConsoleView {
                input: old(self)@.input + bytes@.take(written as int),
                ..old(self)@
            }),
    {
        let space: usize = GUEST_CONSOLE_INPUT_BUFFER_CAPACITY - self.input.len();
        let limit: usize = match granted {
            None => 0,
            Some(n) => {
                let by_memory: usize = if n < bytes.len() {
                    n
                } else {
                    bytes.len()
                };
                if space < by_memory {
                    space
                } else {
                    by_memory
                }
            },
        };
        append_front(&mut self.input, bytes, limit);
        limit
    }

    /// Reads guest output that waits, oldest first.
    pub fn drain_output_bytes(&mut self, bytes: &mut [u8]) -> (read: usize)
        requires
            old(self).wf(),
        ensures
            final(self).wf(),
            read == front_len(old(self)@.output, old(bytes)@),
            final(bytes)@ == filled(old(bytes)@, old(self)@.output, read as int),
            final(self)@ == (GuestConsoleView { output: old(self)@.output.skip(read as int), ..old(self)@ }),
    {
        take_front(&mut self.output, bytes)
    }
}

/// How many bytes of guest input are added.
pub open spec fn input_accepted(input: Seq<u8>, bytes: Seq<u8>, granted: Option<usize>) -> int {
    let space = GUEST_CONSOLE_INPUT_BUFFER_CAPACITY - input.len();
    if space < accepted(bytes, granted) {
        space
    } else {
        accepted(bytes, granted)
    }
}

/// Reads from the console for a caller; without a place for the bytes nothing is
/// read. A caller that reads marks the shell as ready.
pub fn axvisor_linux_console_read_bytes(console: &mut LinuxConsoleAdapter, present: bool, bytes: &mut [u8]) -> (step:
    ReadStep)
    ensures
        !present || old(bytes)@.len() == 0 ==> {
            &&& step == ReadStep::Read(0)
            &&& final(console)@ == old(console)@
            &&& final(bytes)@ == old(bytes)@
        },
        present && old(bytes)@.len() > 0 ==> {
            let ready = ConsoleView { shell_ready: true, ..old(console)@ };
            let n = front_len(ready.input, old(bytes)@);
            if ready.input.len() > 0 {
                &&& step == ReadStep::Read(n as usize)
                &&& final(bytes)@ == filled(old(bytes)@, ready.input, n)
                &&& final(console)@ == ready.after_read(n)
            } else {
                &&& step == (if ready.waitable {
                    ReadStep::WaitPending
                } else {
                    ReadStep::Read(0)
                })
                &&& final(bytes)@ == old(bytes)@
                &&& final(console)@ == ready
            }
        },
{
    if !present || bytes.len() == 0 {
        return ReadStep::Read(0);
    }
    console.shell_ready = true;
    console.read_bytes(bytes)
}

/// Whether a reader was at the console.
pub fn axvisor_linux_console_shell_ready(console: &LinuxConsoleAdapter) -> (r: bool)
    ensures
        r == console@.shell_ready,
{
    console.shell_ready
}

/// Adds console input for a caller; without bytes nothing is added.
pub fn axvisor_linux_console_enqueue_bytes(
    console: &mut LinuxConsoleAdapter,
    bytes: Option<&[u8]>,
    granted: Option<usize>,
) -> (r: (usize, bool))
    ensures
        bytes is None ==> r == (0usize, false) && final(console)@ == old(console)@,
        bytes matches Some(bytes) ==> {
            let n = accepted(bytes@, granted);
            &&& r.0 == n
            &&& r.1 == (n != 0 && old(console)@.waitable)
            &&& final(console)@ == (ConsoleView {
                input: old(console)@.input + bytes@.take(n),
                pending: if r.1 {
                    true
                } else {
                    old(console)@.pending
                },
                ..old(console)@
            })
        },
{
    match bytes {
        None => (0, false),
        Some(bytes) => console.enqueue_bytes(bytes, granted),
    }
}

/// Adds guest input for a caller; without bytes nothing is added.
pub fn axvisor_linux_guest_console_enqueue_bytes(
    console: &mut LinuxGuestConsoleAdapter,
    bytes: Option<&[u8]>,
    granted: Option<usize>,
) -> (written: usize)
    requires
        old(console).wf(),
    ensures
        final(console).wf(),
        bytes is None ==> written == 0 && final(console)@ == old(console)@,
        bytes matches Some(bytes) ==> {
            &&& written == input_accepted(old(console)@.input, bytes@, granted)
            &&& final(console)@ == (GuestConsoleView {
                input: old(console)@.input + bytes@.take(written as int),
                ..old(console)@
            })
        },
{
    match bytes {
        None => 0,
        Some(bytes) => console.enqueue_input_bytes(bytes, granted),
    }
}

/// Reads guest output for a caller; without a place for the bytes nothing is read.
pub fn axvisor_linux_guest_console_drain_bytes(
    console: &mut LinuxGuestConsoleAdapter,
    present: bool,
    bytes: &mut [u8],
) -> (read: usize)
    requires
        old(console).wf(),
    ensures
        final(console).wf(),
        read == (if present {
            front_len(old(console)@.output, old(bytes)@)
        } else {
            0
        }),
        final(bytes)@ == filled(old(bytes)@, old(console)@.output, read as int),
        final(console)@ == (GuestConsoleView { output: old(console)@.output.skip(read as int), ..old(console)@ }),
{
    if !present {
        assert(filled(bytes@, console@.output, 0) =~= bytes@);
        assert(console@.output.skip(0) =~= console@.output);
        return 0;
    }
    console.drain_output_bytes(bytes)
}

/// What was enqueued is read back, in order, by a read that is large enough from an
/// empty console.
pub proof fn console_is_first_in_first_out(input: Seq<u8>, bytes: Seq<u8>, dest: Seq<u8>)
    requires
        dest.len() >= input.len() + bytes.len(),
    ensures
        ({
            let queued = input + bytes;
            let n = front_len(queued, dest);
            &&& n == queued.len()
            &&& filled(dest, queued, n).take(n) == queued
            &&& queued.skip(n) == Seq::<u8>::empty()
        }),
{
    let queued = input + bytes;
    let n = front_len(queued, dest);
    assert(filled(dest, queued, n).take(n) =~= queued);
    assert(queued.skip(n) =~= Seq::<u8>::empty());
}

/// A read and what it leaves are the bytes that waited: nothing is lost, repeated or
/// reordered.
pub proof fn console_read_loses_nothing(buffer: Seq<u8>, dest: Seq<u8>)
    ensures
        ({
            let n = front_len(buffer, dest);
            filled(dest, buffer, n).take(n) + buffer.skip(n) == buffer
        }),
{
    let n = front_len(buffer, dest);
    assert(filled(dest, buffer, n).take(n) + buffer.skip(n) =~= buffer);
}

/// With memory for all of it, guest output keeps the newest bytes: the end of what
/// waited and what was written, as much as the buffer holds.
pub proof fn guest_output_keeps_the_newest(output: Seq<u8>, bytes: Seq<u8>, pushes: int)
    requires
        output.len() <= GUEST_CONSOLE_OUTPUT_BUFFER_CAPACITY,
        pushes >= bytes.len(),
    ensures
        ({
            let all = output + bytes;
            let most = GUEST_CONSOLE_OUTPUT_BUFFER_CAPACITY as int;
            output_after(output, bytes, pushes) == (if all.len() <= most {
                all
            } else {
                all.skip(all.len() - most)
            })
        }),
    decreases bytes.len(),
{
    let most = GUEST_CONSOLE_OUTPUT_BUFFER_CAPACITY as int;
    let all = output + bytes;
    if bytes.len() == 0 {
        assert(all =~= output);
    } else {
        let rest = bytes.drop_last();
        guest_output_keeps_the_newest(output, rest, pushes);
        let before = output + rest;
        assert(all =~= before.push(bytes.last()));
        assert(all =~= before + seq![bytes.last()]);
        let prior = output_after(output, rest, pushes);
        let after = output_with(prior, bytes.last(), true);
        if before.len() <= most - 1 {
            assert(after =~= all);
        } else if before.len() == most {
            assert(after =~= all.skip(all.len() - most));
        } else {
            assert(prior.len() == most);
            assert(after =~= all.skip(all.len() - most));
        }
    }
}

} // verus!
